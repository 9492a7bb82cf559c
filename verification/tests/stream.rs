use ava_bot::stream::{keep_alive_comment, KEEP_ALIVE_MILLIS};
use ava_bot::{
    complete, error, frame_of, in_thinking, AssistantEvent, ChatInputEvent,
    ChatInputSkeletonEvent, ChatReplyData, ChatReplyEvent, ChatReplySkeletonEvent, LiveStream,
    Registry, SpeechResult, StreamOutput,
};

fn frame_parts(event: AssistantEvent) -> (String, String) {
    let frame = frame_of(event);
    (frame.name, frame.id)
}

#[test]
fn frames_are_tagged_by_variant() {
    assert_eq!(frame_parts(complete()), ("signal".to_string(), String::new()));
    assert_eq!(
        frame_parts(AssistantEvent::InputSkeleton(ChatInputSkeletonEvent::with_datetime(
            "t1",
            "now".to_string()
        ))),
        ("input_skeleton".to_string(), "t1".to_string())
    );
    assert_eq!(
        frame_parts(AssistantEvent::Input(ChatInputEvent::new("t2", "hello"))),
        ("input".to_string(), "t2".to_string())
    );
    assert_eq!(
        frame_parts(AssistantEvent::ReplySkeleton(ChatReplySkeletonEvent::new("t3"))),
        ("reply_skeleton".to_string(), "t3".to_string())
    );
    assert_eq!(
        frame_parts(AssistantEvent::Reply(ChatReplyEvent::new(
            "t4",
            ChatReplyData::Speech(SpeechResult::new_text_only("hi"))
        ))),
        ("reply".to_string(), "t4".to_string())
    );
}

#[test]
fn frame_carries_the_event() {
    let frame = frame_of(error("bad"));
    assert_eq!(format!("{:?}", frame.event), format!("{:?}", error("bad")));
}

#[test]
fn keep_alive_settings() {
    assert_eq!(KEEP_ALIVE_MILLIS, 1000);
    assert_eq!(keep_alive_comment(), "keep-alive-text");
}

#[test]
fn opening_a_stream_creates_the_channel() {
    let mut registry = Registry::new();
    assert!(!registry.contains("dev"));
    let _stream = LiveStream::open(&mut registry, "dev");
    assert!(registry.contains("dev"));
}

#[test]
fn stream_yields_frames_in_order() {
    let mut registry = Registry::new();
    let mut stream = LiveStream::open(&mut registry, "dev");
    registry.publish("dev", in_thinking()).unwrap();
    registry.publish("dev", AssistantEvent::Input(ChatInputEvent::new("t", "hi"))).unwrap();
    match stream.next(&registry, 10) {
        StreamOutput::Frame(frame) => {
            assert_eq!(frame.name, "signal");
            assert_eq!(frame.id, "");
        }
        other => panic!("expected a frame, got {:?}", other),
    }
    match stream.next(&registry, 10) {
        StreamOutput::Frame(frame) => {
            assert_eq!(frame.name, "input");
            assert_eq!(frame.id, "t");
        }
        other => panic!("expected a frame, got {:?}", other),
    }
    assert!(matches!(stream.next(&registry, 10), StreamOutput::Idle));
}

#[test]
fn stream_does_not_replay_history() {
    let mut registry = Registry::new();
    registry.publish("dev", in_thinking()).unwrap();
    let mut stream = LiveStream::open(&mut registry, "dev");
    assert!(matches!(stream.next(&registry, 0), StreamOutput::Idle));
}

#[test]
fn keep_alive_after_a_quiet_second() {
    let mut registry = Registry::new();
    let mut stream = LiveStream::open(&mut registry, "dev");
    assert!(matches!(stream.next(&registry, 400), StreamOutput::Idle));
    assert!(matches!(stream.next(&registry, 599), StreamOutput::Idle));
    assert!(matches!(stream.next(&registry, 1), StreamOutput::KeepAlive));
    assert!(matches!(stream.next(&registry, 999), StreamOutput::Idle));
    assert!(matches!(stream.next(&registry, u64::MAX), StreamOutput::KeepAlive));
    assert!(matches!(stream.next(&registry, 1000), StreamOutput::KeepAlive));
}

#[test]
fn an_event_resets_the_quiet_time() {
    let mut registry = Registry::new();
    let mut stream = LiveStream::open(&mut registry, "dev");
    assert!(matches!(stream.next(&registry, 900), StreamOutput::Idle));
    registry.publish("dev", complete()).unwrap();
    assert!(matches!(stream.next(&registry, 900), StreamOutput::Frame(_)));
    assert!(matches!(stream.next(&registry, 900), StreamOutput::Idle));
    assert!(matches!(stream.next(&registry, 100), StreamOutput::KeepAlive));
}

#[test]
fn lag_does_not_end_the_stream() {
    let mut registry = Registry::new();
    let mut stream = LiveStream::open(&mut registry, "dev");
    for n in 0..131 {
        registry.publish("dev", error(&format!("event {}", n))).unwrap();
    }
    match stream.next(&registry, 5000) {
        StreamOutput::Frame(frame) => {
            assert_eq!(format!("{:?}", frame.event), format!("{:?}", error("event 3")));
        }
        other => panic!("expected a frame, got {:?}", other),
    }
    match stream.next(&registry, 0) {
        StreamOutput::Frame(frame) => {
            assert_eq!(format!("{:?}", frame.event), format!("{:?}", error("event 4")));
        }
        other => panic!("expected a frame, got {:?}", other),
    }
}

#[test]
fn missing_channel_does_not_end_the_stream() {
    let mut home = Registry::new();
    let mut stream = LiveStream::open(&mut home, "dev");
    let elsewhere = Registry::new();
    assert!(matches!(stream.next(&elsewhere, 10), StreamOutput::Idle));
    assert!(matches!(stream.next(&elsewhere, 990), StreamOutput::KeepAlive));
    home.publish("dev", complete()).unwrap();
    assert!(matches!(stream.next(&home, 0), StreamOutput::Frame(_)));
}
