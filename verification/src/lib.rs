//! A voice assistant's core: a session event bus and the staged pipeline that feeds it.
//!
//! A client submits a voice clip and watches the answer arrive in stages over a live event
//! stream. `bus` holds the per-session channels, `stream` turns a subscription into frames,
//! `pipeline` runs the stages of one clip and `tools` reads what a completion asks for.

pub mod bus;
pub mod config;
pub mod delivery;
pub mod error;
pub mod events;
pub mod paths;
pub mod pipeline;
pub mod stream;
pub mod tools;
pub mod trace;
pub mod trusted;

pub use bus::{Delivery, Receiver, Registry, MAX_EVENTS};
pub use config::Args;
pub use error::{AppError, ErrorKind};
pub use events::{
    complete, error, in_audio_upload, in_chat_completion, in_draw_image, in_speech, in_thinking,
    in_transcription, in_write_code, AssistantEvent, AssistantStep, ChatInputEvent,
    ChatInputSkeletonEvent, ChatReplyData, ChatReplyEvent, ChatReplySkeletonEvent,
    DrawImageResult, SignalEvent, SpeechResult, WriteCodeResult,
};
pub use paths::{audio_path, audio_url, image_path, image_url};
pub use pipeline::{Action, Choice, FinishReason, GeneratedImage, Outcome, Run, Stage, Step, ToolCall};
pub use stream::{frame_of, Frame, LiveStream, StreamOutput};
pub use tools::{md2html, AssistantTool, ToolArgs};
pub use trace::{replay, Recorded};
