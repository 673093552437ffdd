use associated_types::{
    run, GreetingRepository, GreetingRepositoryA, GreetingRepositoryB, GreetingRepositoryWrapper,
    GreetingServiceA, GreetingServiceB,
};

struct MockGreeting;

impl GreetingRepository for MockGreeting {
    type Message = String;

    fn get(&self) -> Self::Message {
        "Hello from test".to_string()
    }

    fn to_string_messege(msg: Self::Message) -> String {
        msg
    }

    fn from_string_message(msg: &str) -> Self::Message {
        msg.into()
    }
}

#[test]
fn service_a_is_working() {
    let test_service = GreetingServiceA::new(Box::new(MockGreeting {}));
    let message = test_service.say();

    assert_eq!(message, "[Dynamic Dispatch] Hello from test".to_string())
}

#[test]
fn dynamic_service_over_plain_repository() {
    let service = GreetingServiceA::new(Box::new(GreetingRepositoryA::new()));
    assert_eq!(service.say(), "[Dynamic Dispatch] Hello from A");
}

#[test]
fn dynamic_service_over_wrapped_repository() {
    let service = GreetingServiceA::new(Box::new(GreetingRepositoryB::new()));
    assert_eq!(service.say(), "[Dynamic Dispatch] Hello from B");
}

#[test]
fn generic_service_over_wrapped_repository() {
    let service = GreetingServiceB::new(GreetingRepositoryB::new());
    assert_eq!(service.say(), "[Generics] Hello from B");
}

#[test]
fn generic_service_over_plain_repository() {
    let service = GreetingServiceB::new(GreetingRepositoryA::new());
    assert_eq!(service.say(), "[Generics] Hello from A");
}

#[test]
fn generic_service_over_mock_repository() {
    let service = GreetingServiceB::new(MockGreeting);
    assert_eq!(service.say(), "[Generics] Hello from test");
}

#[test]
fn fresh_repositories_give_their_greeting() {
    assert_eq!(GreetingRepositoryWrapper::get(&GreetingRepositoryA::new()), "Hello from A");
    assert_eq!(GreetingRepositoryWrapper::get(&GreetingRepositoryB::new()), "Hello from B");
}

#[test]
fn plain_messages_round_trip() {
    for s in ["", "Hello from A", "grüße, 世界", "  spaced  "] {
        let msg = GreetingRepositoryA::from_string_message(s);
        assert_eq!(GreetingRepositoryA::to_string_messege(msg), s);
    }
}

#[test]
fn wrapped_messages_round_trip() {
    for s in ["", "Hello from B", "grüße, 世界", "  spaced  "] {
        let msg = GreetingRepositoryB::from_string_message(s);
        assert_eq!(GreetingRepositoryB::to_string_messege(msg), s);
    }
}

#[test]
fn held_message_renders_as_greeting() {
    let b = GreetingRepositoryB::new();
    let msg = GreetingRepository::get(&b);
    assert_eq!(GreetingRepositoryB::to_string_messege(msg), "Hello from B");
}

#[test]
fn services_differ_only_in_tag() {
    let dynamic = GreetingServiceA::new(Box::new(GreetingRepositoryB::new())).say();
    let generic = GreetingServiceB::new(GreetingRepositoryB::new()).say();
    assert_eq!(dynamic.strip_prefix("[Dynamic Dispatch] "), Some("Hello from B"));
    assert_eq!(generic.strip_prefix("[Generics] "), Some("Hello from B"));
}

#[test]
fn run_gives_four_lines_in_order() {
    assert_eq!(
        run(),
        vec![
            "[Dynamic Dispatch] Hello from A".to_string(),
            "[Dynamic Dispatch] Hello from B".to_string(),
            "[Generics] Hello from A".to_string(),
            "[Generics] Hello from B".to_string(),
        ]
    );
}
