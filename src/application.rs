use vstd::prelude::*;
use crate::domain::GreetingRepositoryWrapper;

verus! {

/// The tag that `GreetingServiceA::say` puts before the greeting.
pub const DYNAMIC_DISPATCH_TAG: &'static str = "[Dynamic Dispatch] ";

/// The tag that `GreetingServiceB::say` puts before the greeting.
pub const GENERICS_TAG: &'static str = "[Generics] ";

/// A service over any repository, reached through a trait object.
pub struct GreetingServiceA {
    greeting_repo: Box<dyn GreetingRepositoryWrapper>,
}

impl GreetingServiceA {
    /// The greeting of the repository this service owns.
    pub closed spec fn greeting_text(&self) -> Seq<char> {
        self.greeting_repo.text()
    }

    /// Takes ownership of a boxed repository of any kind.
    pub fn new(greeting_repo: Box<dyn GreetingRepositoryWrapper>) -> (r: Self)
        ensures
            r.greeting_text() == greeting_repo.text(),
    {
        Self { greeting_repo }
    }

    /// The repository's greeting behind the dynamic dispatch tag.
    pub fn say(&self) -> (r: String)
        ensures
            r@ == DYNAMIC_DISPATCH_TAG@ + self.greeting_text(),
    {
        let msg = self.greeting_repo.get();
        let mut out = String::from_str(DYNAMIC_DISPATCH_TAG);
        out.append(msg.as_str());
        out
    }
}

/// A service over one repository type, fixed at compile time.
pub struct GreetingServiceB<T> where T: GreetingRepositoryWrapper {
    greeting_repo: T,
}

impl<T: GreetingRepositoryWrapper> GreetingServiceB<T> {
    /// The greeting of the repository this service owns.
    pub closed spec fn greeting_text(&self) -> Seq<char> {
        self.greeting_repo.text()
    }

    /// Takes ownership of the repository.
    pub fn new(greeting_repo: T) -> (r: Self)
        ensures
            r.greeting_text() == greeting_repo.text(),
    {
        Self { greeting_repo }
    }

    /// The repository's greeting behind the generics tag.
    pub fn say(&self) -> (r: String)
        ensures
            r@ == GENERICS_TAG@ + self.greeting_text(),
    {
        let msg = self.greeting_repo.get();
        let mut out = String::from_str(GENERICS_TAG);
        out.append(msg.as_str());
        out
    }
}

} // verus!
