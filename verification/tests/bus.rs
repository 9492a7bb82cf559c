use ava_bot::{
    complete, error, in_speech, in_thinking, AssistantEvent, Delivery, ErrorKind, Registry,
    SignalEvent, MAX_EVENTS,
};

fn numbered(n: usize) -> AssistantEvent {
    error(&format!("event {}", n))
}

fn number_of(event: &AssistantEvent) -> String {
    match event {
        AssistantEvent::Signal(SignalEvent::Error(message)) => message.clone(),
        other => panic!("unexpected event {:?}", other),
    }
}

fn next_event(delivery: Delivery) -> AssistantEvent {
    match delivery {
        Delivery::Event(event) => event,
        other => panic!("expected an event, got {:?}", other),
    }
}

#[test]
fn capacity_is_128() {
    assert_eq!(MAX_EVENTS, 128);
}

#[test]
fn new_registry_has_no_channel() {
    let registry = Registry::new();
    assert!(!registry.contains("dev"));
    assert_eq!(registry.published_count("dev"), 0);
}

#[test]
fn subscribing_creates_the_channel_once() {
    let mut registry = Registry::new();
    let first = registry.get_or_create_receiver("dev");
    assert!(registry.contains("dev"));
    assert!(!registry.contains("other"));
    assert_eq!(first.session(), "dev");
    assert_eq!(first.position(), 0);
    registry.publish("dev", complete()).unwrap();
    let second = registry.get_or_create_receiver("dev");
    assert_eq!(second.session(), "dev");
    assert_eq!(second.position(), 1);
    assert_eq!(registry.published_count("dev"), 1);
}

#[test]
fn two_subscriptions_share_one_channel() {
    let mut registry = Registry::new();
    let mut first = registry.get_or_create_receiver("dev");
    let mut second = registry.get_or_create_receiver("dev");
    registry.publish("dev", in_thinking()).unwrap();
    let seen_first = next_event(registry.poll(&mut first).unwrap());
    let seen_second = next_event(registry.poll(&mut second).unwrap());
    assert_eq!(format!("{:?}", seen_first), format!("{:?}", in_thinking()));
    assert_eq!(format!("{:?}", seen_second), format!("{:?}", in_thinking()));
    assert!(matches!(registry.poll(&mut first).unwrap(), Delivery::Empty));
    assert!(matches!(registry.poll(&mut second).unwrap(), Delivery::Empty));
}

#[test]
fn publish_creates_the_channel() {
    let mut registry = Registry::new();
    assert!(registry.publish("dev", complete()).is_ok());
    assert!(registry.contains("dev"));
    assert_eq!(registry.published_count("dev"), 1);
}

#[test]
fn publish_without_subscribers_is_no_error() {
    let mut registry = Registry::new();
    for n in 0..300 {
        assert!(registry.publish("dev", numbered(n)).is_ok());
    }
    assert_eq!(registry.published_count("dev"), 300);
}

#[test]
fn sessions_do_not_mix() {
    let mut registry = Registry::new();
    let mut a = registry.get_or_create_receiver("a");
    let mut b = registry.get_or_create_receiver("b");
    registry.publish("a", numbered(1)).unwrap();
    assert_eq!(number_of(&next_event(registry.poll(&mut a).unwrap())), "event 1");
    assert!(matches!(registry.poll(&mut b).unwrap(), Delivery::Empty));
    assert_eq!(registry.published_count("a"), 1);
    assert_eq!(registry.published_count("b"), 0);
}

#[test]
fn late_subscriber_gets_no_replay() {
    let mut registry = Registry::new();
    registry.publish("dev", numbered(1)).unwrap();
    registry.publish("dev", numbered(2)).unwrap();
    let mut late = registry.get_or_create_receiver("dev");
    assert_eq!(late.position(), 2);
    assert!(matches!(registry.poll(&mut late).unwrap(), Delivery::Empty));
    registry.publish("dev", numbered(3)).unwrap();
    let seen: Vec<String> = registry.drain(&mut late).unwrap().iter().map(number_of).collect();
    assert_eq!(seen, vec!["event 3".to_string()]);
}

#[test]
fn concurrent_subscribers_see_the_same_events_in_order() {
    let mut registry = Registry::new();
    let mut early = registry.get_or_create_receiver("dev");
    registry.publish("dev", numbered(0)).unwrap();
    let mut late = registry.get_or_create_receiver("dev");
    for n in 1..=5 {
        registry.publish("dev", numbered(n)).unwrap();
    }
    let seen_early: Vec<String> =
        registry.drain(&mut early).unwrap().iter().map(number_of).collect();
    let seen_late: Vec<String> = registry.drain(&mut late).unwrap().iter().map(number_of).collect();
    let window: Vec<String> = (1..=5).map(|n| format!("event {}", n)).collect();
    assert_eq!(seen_late, window);
    assert_eq!(seen_early.len(), 6);
    assert_eq!(seen_early[0], "event 0");
    assert_eq!(seen_early[1..].to_vec(), window);
}

#[test]
fn events_arrive_in_publication_order() {
    let mut registry = Registry::new();
    let mut receiver = registry.get_or_create_receiver("dev");
    registry.publish_all("dev", &vec![in_thinking(), in_speech(), complete()]);
    let first = next_event(registry.poll(&mut receiver).unwrap());
    let second = next_event(registry.poll(&mut receiver).unwrap());
    let third = next_event(registry.poll(&mut receiver).unwrap());
    assert_eq!(format!("{:?}", first), format!("{:?}", in_thinking()));
    assert_eq!(format!("{:?}", second), format!("{:?}", in_speech()));
    assert_eq!(format!("{:?}", third), format!("{:?}", complete()));
    assert_eq!(receiver.position(), 3);
    assert!(matches!(registry.poll(&mut receiver).unwrap(), Delivery::Empty));
    assert_eq!(receiver.position(), 3);
}

#[test]
fn publish_all_of_nothing_changes_nothing() {
    let mut registry = Registry::new();
    registry.publish_all("dev", &Vec::new());
    assert!(!registry.contains("dev"));
}

#[test]
fn full_buffer_is_delivered_without_lag() {
    let mut registry = Registry::new();
    let mut receiver = registry.get_or_create_receiver("dev");
    for n in 0..128 {
        registry.publish("dev", numbered(n)).unwrap();
    }
    let seen = registry.drain(&mut receiver).unwrap();
    assert_eq!(seen.len(), 128);
    assert_eq!(number_of(&seen[0]), "event 0");
    assert_eq!(number_of(&seen[127]), "event 127");
}

#[test]
fn slow_subscriber_is_told_what_it_missed() {
    let mut registry = Registry::new();
    let mut slow = registry.get_or_create_receiver("dev");
    for n in 0..130 {
        registry.publish("dev", numbered(n)).unwrap();
    }
    match registry.poll(&mut slow).unwrap() {
        Delivery::Lagged(missed) => assert_eq!(missed, 2),
        other => panic!("expected a lag notification, got {:?}", other),
    }
    assert_eq!(slow.position(), 2);
    assert_eq!(number_of(&next_event(registry.poll(&mut slow).unwrap())), "event 2");
    assert_eq!(slow.position(), 3);
    let rest = registry.drain(&mut slow).unwrap();
    assert_eq!(rest.len(), 127);
    assert_eq!(number_of(&rest[0]), "event 3");
    assert_eq!(number_of(&rest[126]), "event 129");
    assert_eq!(slow.position(), 130);
}

#[test]
fn drain_passes_over_lag() {
    let mut registry = Registry::new();
    let mut slow = registry.get_or_create_receiver("dev");
    for n in 0..200 {
        registry.publish("dev", numbered(n)).unwrap();
    }
    let seen = registry.drain(&mut slow).unwrap();
    assert_eq!(seen.len(), 128);
    assert_eq!(number_of(&seen[0]), "event 72");
    assert_eq!(number_of(&seen[127]), "event 199");
    assert!(registry.drain(&mut slow).unwrap().is_empty());
}

#[test]
fn unknown_session_is_not_found() {
    let mut home = Registry::new();
    let mut receiver = home.get_or_create_receiver("dev");
    let elsewhere = Registry::new();
    let failure = elsewhere.poll(&mut receiver).unwrap_err();
    assert_eq!(failure.kind(), ErrorKind::NotFound);
    assert_eq!(failure.message(), "session not found");
    assert_eq!(receiver.position(), 0);
    let failure = elsewhere.drain(&mut receiver).unwrap_err();
    assert_eq!(failure.kind(), ErrorKind::NotFound);
}
