use vstd::prelude::*;

verus! {

/// A store of one greeting, free to choose how it represents the message
/// it holds, as long as the message converts losslessly to and from text.
pub trait GreetingRepository {
    type Message;

    /// The text of the greeting this repository holds. Implementations
    /// written outside verified code may leave it unspecified.
    closed spec fn greeting(&self) -> Seq<char> {
        arbitrary()
    }

    /// The text that a message stands for. Implementations written outside
    /// verified code may leave it unspecified.
    closed spec fn text_of(msg: Self::Message) -> Seq<char> {
        arbitrary()
    }

    /// Hands out a copy of the held message.
    fn get(&self) -> (r: Self::Message)
        ensures
            Self::text_of(r) == self.greeting(),
    ;

    /// Renders a message as a display string.
    fn to_string_messege(msg: Self::Message) -> (r: String)
        ensures
            r@ == Self::text_of(msg),
    ;

    /// Builds a message from its display string.
    fn from_string_message(msg: &str) -> (r: Self::Message)
        ensures
            Self::text_of(r) == msg@,
    ;
}

/// The normalized view of a repository: its greeting as a plain string.
pub trait GreetingRepositoryWrapper {
    /// The text that `get` returns.
    spec fn text(&self) -> Seq<char>;

    /// The greeting as a string.
    fn get(&self) -> (r: String)
        ensures
            r@ == self.text(),
    ;
}

/// Every repository gets the string view for free: fetch the message,
/// then render it.
impl<T: GreetingRepository> GreetingRepositoryWrapper for T {
    open spec fn text(&self) -> Seq<char> {
        self.greeting()
    }

    fn get(&self) -> (r: String) {
        let msg = GreetingRepository::get(self);
        T::to_string_messege(msg)
    }
}

} // verus!
