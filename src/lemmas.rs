use vstd::prelude::*;
use crate::application::{DYNAMIC_DISPATCH_TAG, GENERICS_TAG, GreetingServiceA, GreetingServiceB};
use crate::domain::{GreetingRepository, GreetingRepositoryWrapper};
use crate::repository::{GREETING_A, GREETING_B, GreetingRepositoryA, GreetingRepositoryB};

verus! {

/// A freshly built repository of either kind, read through its string view,
/// returns exactly the greeting it was built with: converting the message to
/// text loses nothing.
pub proof fn lemma_fresh_repository_greets(
    a: GreetingRepositoryA,
    text_a: String,
    b: GreetingRepositoryB,
    text_b: String,
)
    requires
        call_ensures(GreetingRepositoryA::new, (), a),
        call_ensures(<GreetingRepositoryA as GreetingRepositoryWrapper>::get, (&a,), text_a),
        call_ensures(GreetingRepositoryB::new, (), b),
        call_ensures(<GreetingRepositoryB as GreetingRepositoryWrapper>::get, (&b,), text_b),
    ensures
        text_a@ == GREETING_A@,
        text_b@ == GREETING_B@,
{
}

/// For any repository kind and any string `s`, rendering the message built
/// from `s` gives back `s`.
pub proof fn lemma_display_round_trip<R: GreetingRepository>(
    s: &str,
    msg: R::Message,
    out: String,
)
    requires
        call_ensures(R::from_string_message, (s,), msg),
        call_ensures(R::to_string_messege, (msg,), out),
    ensures
        out@ == s@,
{
}

/// The dynamic and the generic service, over repositories with the same
/// greeting, say the same thing after their tags: the two answers differ in
/// the tag alone.
pub proof fn lemma_dispatch_differs_only_in_tag<T: GreetingRepositoryWrapper>(
    dynamic: &GreetingServiceA,
    generic: &GreetingServiceB<T>,
    said_dynamic: String,
    said_generic: String,
)
    requires
        dynamic.greeting_text() == generic.greeting_text(),
        call_ensures(GreetingServiceA::say, (dynamic,), said_dynamic),
        call_ensures(GreetingServiceB::<T>::say, (generic,), said_generic),
    ensures
        said_dynamic@.subrange(0, DYNAMIC_DISPATCH_TAG@.len() as int) == DYNAMIC_DISPATCH_TAG@,
        said_generic@.subrange(0, GENERICS_TAG@.len() as int) == GENERICS_TAG@,
        said_dynamic@.subrange(DYNAMIC_DISPATCH_TAG@.len() as int, said_dynamic@.len() as int)
            == said_generic@.subrange(GENERICS_TAG@.len() as int, said_generic@.len() as int),
{
    let suffix = dynamic.greeting_text();
    assert(said_dynamic@.subrange(0, DYNAMIC_DISPATCH_TAG@.len() as int) =~= DYNAMIC_DISPATCH_TAG@);
    assert(said_generic@.subrange(0, GENERICS_TAG@.len() as int) =~= GENERICS_TAG@);
    assert(said_dynamic@.subrange(DYNAMIC_DISPATCH_TAG@.len() as int, said_dynamic@.len() as int)
        =~= suffix);
    assert(said_generic@.subrange(GENERICS_TAG@.len() as int, said_generic@.len() as int)
        =~= suffix);
}

} // verus!
