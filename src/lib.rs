use vstd::prelude::*;

pub mod application;
pub mod domain;
pub mod lemmas;
pub mod repository;
pub use lemmas::{lemma_display_round_trip, lemma_dispatch_differs_only_in_tag, lemma_fresh_repository_greets};

pub use application::{GreetingServiceA, GreetingServiceB, DYNAMIC_DISPATCH_TAG, GENERICS_TAG};
pub use domain::{GreetingRepository, GreetingRepositoryWrapper};
pub use repository::{GreetingRepositoryA, GreetingRepositoryB, Msg, GREETING_A, GREETING_B};

verus! {

/// The four lines of the demonstration: each repository kind behind the
/// dynamic service, then each behind the generic service.
pub fn run() -> (lines: Vec<String>)
    ensures
        lines@.len() == 4,
        lines@[0]@ == DYNAMIC_DISPATCH_TAG@ + GREETING_A@,
        lines@[1]@ == DYNAMIC_DISPATCH_TAG@ + GREETING_B@,
        lines@[2]@ == GENERICS_TAG@ + GREETING_A@,
        lines@[3]@ == GENERICS_TAG@ + GREETING_B@,
{
    let mut lines: Vec<String> = Vec::new();
    let service_a_1 = GreetingServiceA::new(Box::new(GreetingRepositoryA::new()));
    lines.push(service_a_1.say());
    let service_a_2 = GreetingServiceA::new(Box::new(GreetingRepositoryB::new()));
    lines.push(service_a_2.say());
    let service_b_1 = GreetingServiceB::new(GreetingRepositoryA::new());
    lines.push(service_b_1.say());
    let service_b_2 = GreetingServiceB::new(GreetingRepositoryB::new());
    lines.push(service_b_2.say());
    lines
}

} // verus!
