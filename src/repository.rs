use vstd::prelude::*;
use crate::domain::GreetingRepository;

verus! {

/// The greeting that `GreetingRepositoryA::new` starts with.
pub const GREETING_A: &'static str = "Hello from A";

/// The greeting that `GreetingRepositoryB::new` starts with.
pub const GREETING_B: &'static str = "Hello from B";

/// A repository whose message is the string itself.
pub struct GreetingRepositoryA {
    msg: String,
}

impl GreetingRepository for GreetingRepositoryA {
    type Message = String;

    closed spec fn greeting(&self) -> Seq<char> {
        self.msg@
    }

    open spec fn text_of(msg: String) -> Seq<char> {
        msg@
    }

    fn get(&self) -> (r: String) {
        self.msg.clone()
    }

    fn to_string_messege(msg: String) -> (r: String) {
        msg
    }

    fn from_string_message(msg: &str) -> (r: String) {
        String::from_str(msg)
    }
}

impl GreetingRepositoryA {
    /// A repository holding `GREETING_A`.
    pub fn new() -> (r: Self)
        ensures
            r.greeting() == GREETING_A@,
    {
        Self { msg: String::from_str(GREETING_A) }
    }
}

/// A message that wraps its text in a field of its own.
#[derive(Clone)]
pub struct Msg(String);

impl View for Msg {
    type V = Seq<char>;

    closed spec fn view(&self) -> Seq<char> {
        self.0@
    }
}

/// A repository whose message is a `Msg`.
pub struct GreetingRepositoryB {
    msg: Msg,
}

impl GreetingRepository for GreetingRepositoryB {
    type Message = Msg;

    closed spec fn greeting(&self) -> Seq<char> {
        self.msg@
    }

    open spec fn text_of(msg: Msg) -> Seq<char> {
        msg@
    }

    fn get(&self) -> (r: Msg) {
        Msg(self.msg.0.clone())
    }

    fn to_string_messege(msg: Msg) -> (r: String) {
        msg.0
    }

    fn from_string_message(msg: &str) -> (r: Msg) {
        Msg(String::from_str(msg))
    }
}

impl GreetingRepositoryB {
    /// A repository holding `GREETING_B` as a `Msg`.
    pub fn new() -> (r: Self)
        ensures
            r.greeting() == GREETING_B@,
    {
        Self { msg: Msg(String::from_str(GREETING_B)) }
    }
}

} // verus!
