use ava_bot::events::stamp_of;
use ava_bot::{
    audio_path, audio_url, complete, error, image_path, image_url, in_audio_upload,
    in_chat_completion, in_draw_image, in_speech, in_thinking, in_transcription, in_write_code,
    AppError, Args, AssistantEvent, AssistantStep, ChatInputEvent, ChatInputSkeletonEvent,
    ChatReplyData, ChatReplyEvent, ChatReplySkeletonEvent, DrawImageResult, ErrorKind,
    SignalEvent, SpeechResult, WriteCodeResult,
};

fn step_of(event: &AssistantEvent) -> Option<AssistantStep> {
    match event {
        AssistantEvent::Signal(SignalEvent::Processing(step)) => Some(*step),
        _ => None,
    }
}

#[test]
fn processing_signals_name_their_step() {
    assert_eq!(step_of(&in_audio_upload()), Some(AssistantStep::UploadAudio));
    assert_eq!(step_of(&in_transcription()), Some(AssistantStep::Transcription));
    assert_eq!(step_of(&in_thinking()), Some(AssistantStep::Thinking));
    assert_eq!(step_of(&in_chat_completion()), Some(AssistantStep::ChatCompletion));
    assert_eq!(step_of(&in_speech()), Some(AssistantStep::Speech));
    assert_eq!(step_of(&in_draw_image()), Some(AssistantStep::DrawImage));
    assert_eq!(step_of(&in_write_code()), Some(AssistantStep::WriteCode));
}

#[test]
fn complete_and_error_signals() {
    assert!(matches!(complete(), AssistantEvent::Signal(SignalEvent::Complete)));
    match error("boom") {
        AssistantEvent::Signal(SignalEvent::Error(message)) => assert_eq!(message, "boom"),
        other => panic!("unexpected event {:?}", other),
    }
}

#[test]
fn step_labels() {
    assert_eq!(AssistantStep::UploadAudio.label(), "Uploading audio");
    assert_eq!(AssistantStep::Transcription.label(), "Transcribing audio");
    assert_eq!(AssistantStep::Thinking.label(), "Thinking hard");
    assert_eq!(AssistantStep::ChatCompletion.label(), "Organizing answer");
    assert_eq!(AssistantStep::DrawImage.label(), "Drawing image");
    assert_eq!(AssistantStep::WriteCode.label(), "Writing code");
    assert_eq!(AssistantStep::Speech.label(), "Generating speech");
}

#[test]
fn input_event_keeps_id_and_content() {
    let event = ChatInputEvent::new("turn-1", "hello there");
    assert_eq!(event.id, "turn-1");
    assert_eq!(event.content, "hello there");
}

#[test]
fn input_skeleton_stamps_defaults() {
    let event = ChatInputSkeletonEvent::with_datetime("turn-1", "2024-05-06 07:08:09".to_string());
    assert_eq!(event.id, "turn-1");
    assert_eq!(event.datetime, "2024-05-06 07:08:09");
    assert_eq!(event.avatar, "https://i.pravatar.cc/128");
    assert_eq!(event.name, "User");
}

#[test]
fn input_skeleton_new_writes_the_present_time() {
    let event = ChatInputSkeletonEvent::new("turn-2");
    assert_eq!(event.id, "turn-2");
    assert_eq!(event.avatar, "https://i.pravatar.cc/128");
    assert_eq!(event.name, "User");
    let stamp: Vec<char> = event.datetime.chars().collect();
    assert_eq!(stamp.len(), 19);
    for (at, symbol) in stamp.iter().enumerate() {
        match at {
            4 | 7 => assert_eq!(*symbol, '-'),
            10 => assert_eq!(*symbol, ' '),
            13 | 16 => assert_eq!(*symbol, ':'),
            _ => assert!(symbol.is_ascii_digit()),
        }
    }
}

#[test]
fn reply_skeleton_stamps_defaults() {
    let event = ChatReplySkeletonEvent::new("turn-3");
    assert_eq!(event.id, "turn-3");
    assert_eq!(event.avatar, "./public/images/ava-small.png");
    assert_eq!(event.name, "Ava");
}

#[test]
fn reply_event_keeps_id_and_data() {
    let event = ChatReplyEvent::new(
        "turn-4",
        ChatReplyData::Image(DrawImageResult::new("./assets/image/d/i.png", "a cat")),
    );
    assert_eq!(event.id, "turn-4");
    match event.data {
        ChatReplyData::Image(image) => {
            assert_eq!(image.url, "./assets/image/d/i.png");
            assert_eq!(image.prompt, "a cat");
        }
        other => panic!("unexpected data {:?}", other),
    }
}

#[test]
fn speech_results() {
    let full = SpeechResult::new("hi", "./assets/audio/d/a.mp3");
    assert_eq!(full.text, "hi");
    assert_eq!(full.url, "./assets/audio/d/a.mp3");
    let text_only = SpeechResult::new_text_only("hi");
    assert_eq!(text_only.text, "hi");
    assert_eq!(text_only.url, "");
}

#[test]
fn code_result_keeps_content() {
    let code = WriteCodeResult::new("<p>x</p>".to_string());
    assert_eq!(code.content, "<p>x</p>");
}

#[test]
fn events_clone_to_equal_values() {
    let event = AssistantEvent::Reply(ChatReplyEvent::new(
        "turn-5",
        ChatReplyData::Speech(SpeechResult::new("hello", "url")),
    ));
    let copy = event.clone();
    assert_eq!(format!("{:?}", event), format!("{:?}", copy));
    let signal = error("broken");
    assert_eq!(format!("{:?}", signal.clone()), format!("{:?}", signal));
}

#[test]
fn artifact_locations() {
    assert_eq!(audio_path("dev", "abc"), "./tmp/ava-bot/audio/dev/abc.mp3");
    assert_eq!(audio_url("dev", "abc"), "./assets/audio/dev/abc.mp3");
    assert_eq!(image_path("dev", "abc"), "./tmp/ava-bot/image/dev/abc.png");
    assert_eq!(image_url("dev", "abc"), "./assets/image/dev/abc.png");
}

#[test]
fn artifact_locations_with_empty_parts() {
    assert_eq!(audio_path("", ""), "./tmp/ava-bot/audio//.mp3");
    assert_eq!(image_url("", "x"), "./assets/image//x.png");
}

#[test]
fn url_and_path_share_their_tail() {
    let path = audio_path("device-7", "clip");
    let url = audio_url("device-7", "clip");
    assert_eq!(
        path.strip_prefix("./tmp/ava-bot/audio/"),
        url.strip_prefix("./assets/audio/")
    );
    let path = image_path("device-7", "pic");
    let url = image_url("device-7", "pic");
    assert_eq!(
        path.strip_prefix("./tmp/ava-bot/image/"),
        url.strip_prefix("./assets/image/")
    );
}

#[test]
fn app_error_reports() {
    let failure = AppError::new(ErrorKind::NotFound, "device_id not found");
    assert_eq!(failure.kind(), ErrorKind::NotFound);
    assert_eq!(failure.message(), "device_id not found");
    assert_eq!(failure.report(), "Something went wrong:device_id not found");
    let copy = failure.clone();
    assert_eq!(copy.kind(), ErrorKind::NotFound);
    assert_eq!(copy.message(), "device_id not found");
}

#[test]
fn default_arguments() {
    let args = Args::default();
    assert_eq!(args.port, 8080);
    assert_eq!(args.cert_path, ".certs");
}

#[test]
fn events_wrap_by_conversion() {
    let event: AssistantEvent = SignalEvent::Complete.into();
    assert!(matches!(event, AssistantEvent::Signal(SignalEvent::Complete)));
    let event: AssistantEvent = ChatInputEvent::new("t", "hi").into();
    assert!(matches!(event, AssistantEvent::Input(_)));
    let event: AssistantEvent = ChatReplySkeletonEvent::new("t").into();
    assert!(matches!(event, AssistantEvent::ReplySkeleton(_)));
    let event: AssistantEvent =
        ChatInputSkeletonEvent::with_datetime("t", String::new()).into();
    assert!(matches!(event, AssistantEvent::InputSkeleton(_)));
    let data: ChatReplyData = SpeechResult::new_text_only("hi").into();
    assert!(matches!(data, ChatReplyData::Speech(_)));
    let data: ChatReplyData = DrawImageResult::new("u", "p").into();
    assert!(matches!(data, ChatReplyData::Image(_)));
    let data: ChatReplyData = WriteCodeResult::new("c".to_string()).into();
    assert!(matches!(data, ChatReplyData::Markdown(_)));
    let event: AssistantEvent = ChatReplyEvent::new("t", data).into();
    assert!(matches!(event, AssistantEvent::Reply(_)));
}

#[test]
fn stamp_is_the_written_time_or_empty() {
    assert_eq!(stamp_of(Some("2024-05-06 07:08:09".to_string())), "2024-05-06 07:08:09");
    assert_eq!(stamp_of(Some(String::new())), "");
    assert_eq!(stamp_of(None), "");
}
