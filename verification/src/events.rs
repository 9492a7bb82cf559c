//! The event model: the closed set of events that travel over a session's channel.

use crate::trusted::format_now;
use vstd::prelude::*;
use vstd::string::StringExecFns;

verus! {

/// A stage of the pipeline, shown to viewers as progress.
#[derive(Clone, Copy, Debug, PartialEq, Eq, Structural)]
pub enum AssistantStep {
    UploadAudio,
    Transcription,
    Thinking,
    ChatCompletion,
    DrawImage,
    WriteCode,
    Speech,
}

/// The caption of a step.
pub open spec fn step_label(step: AssistantStep) -> Seq<char> {
    match step {
        AssistantStep::UploadAudio => "Uploading audio"@,
        AssistantStep::Transcription => "Transcribing audio"@,
        AssistantStep::Thinking => "Thinking hard"@,
        AssistantStep::ChatCompletion => "Organizing answer"@,
        AssistantStep::DrawImage => "Drawing image"@,
        AssistantStep::WriteCode => "Writing code"@,
        AssistantStep::Speech => "Generating speech"@,
    }
}

impl AssistantStep {
    pub fn label(&self) -> (label: &'static str)
        ensures
            label@ == step_label(*self),
    {
        match self {
            AssistantStep::UploadAudio => "Uploading audio",
            AssistantStep::Transcription => "Transcribing audio",
            AssistantStep::Thinking => "Thinking hard",
            AssistantStep::ChatCompletion => "Organizing answer",
            AssistantStep::DrawImage => "Drawing image",
            AssistantStep::WriteCode => "Writing code",
            AssistantStep::Speech => "Generating speech",
        }
    }
}

/// A lifecycle marker of a run. It belongs to no conversation turn.
#[derive(Debug)]
pub enum SignalEvent {
    Processing(AssistantStep),
    Error(String),
    Complete,
}

pub enum SignalView {
    Processing(AssistantStep),
    Error(Seq<char>),
    Complete,
}

impl View for SignalEvent {
    type V = SignalView;

    open spec fn view(&self) -> SignalView {
        match self {
            SignalEvent::Processing(step) => SignalView::Processing(*step),
            SignalEvent::Error(message) => SignalView::Error(message@),
            SignalEvent::Complete => SignalView::Complete,
        }
    }
}

impl Clone for SignalEvent {
    fn clone(&self) -> (copy: SignalEvent)
        ensures
            copy@ == self@,
    {
        match self {
            SignalEvent::Processing(step) => SignalEvent::Processing(*step),
            SignalEvent::Error(message) => SignalEvent::Error(message.clone()),
            SignalEvent::Complete => SignalEvent::Complete,
        }
    }
}

/// Placeholder for a user utterance that is still being transcribed.
#[derive(Debug)]
pub struct ChatInputSkeletonEvent {
    pub id: String,
    pub datetime: String,
    pub avatar: String,
    pub name: String,
}

pub struct ChatInputSkeletonView {
    pub id: Seq<char>,
    pub datetime: Seq<char>,
    pub avatar: Seq<char>,
    pub name: Seq<char>,
}

impl View for ChatInputSkeletonEvent {
    type V = ChatInputSkeletonView;

    open spec fn view(&self) -> ChatInputSkeletonView {
        ChatInputSkeletonView {
            id: self.id@,
            datetime: self.datetime@,
            avatar: self.avatar@,
            name: self.name@,
        }
    }
}

impl Clone for ChatInputSkeletonEvent {
    fn clone(&self) -> (copy: ChatInputSkeletonEvent)
        ensures
            copy@ == self@,
    {
        ChatInputSkeletonEvent {
            id: self.id.clone(),
            datetime: self.datetime.clone(),
            avatar: self.avatar.clone(),
            name: self.name.clone(),
        }
    }
}

/// The transcribed user utterance.
#[derive(Debug)]
pub struct ChatInputEvent {
    pub id: String,
    pub content: String,
}

pub struct ChatInputView {
    pub id: Seq<char>,
    pub content: Seq<char>,
}

impl View for ChatInputEvent {
    type V = ChatInputView;

    open spec fn view(&self) -> ChatInputView {
        ChatInputView { id: self.id@, content: self.content@ }
    }
}

impl Clone for ChatInputEvent {
    fn clone(&self) -> (copy: ChatInputEvent)
        ensures
            copy@ == self@,
    {
        ChatInputEvent { id: self.id.clone(), content: self.content.clone() }
    }
}

/// Placeholder for an assistant reply that is still being produced.
#[derive(Debug)]
pub struct ChatReplySkeletonEvent {
    pub id: String,
    pub avatar: String,
    pub name: String,
}

pub struct ChatReplySkeletonView {
    pub id: Seq<char>,
    pub avatar: Seq<char>,
    pub name: Seq<char>,
}

impl View for ChatReplySkeletonEvent {
    type V = ChatReplySkeletonView;

    open spec fn view(&self) -> ChatReplySkeletonView {
        ChatReplySkeletonView { id: self.id@, avatar: self.avatar@, name: self.name@ }
    }
}

impl Clone for ChatReplySkeletonEvent {
    fn clone(&self) -> (copy: ChatReplySkeletonEvent)
        ensures
            copy@ == self@,
    {
        ChatReplySkeletonEvent {
            id: self.id.clone(),
            avatar: self.avatar.clone(),
            name: self.name.clone(),
        }
    }
}

/// Spoken text; `url` is empty until the audio has been stored.
#[derive(Debug)]
pub struct SpeechResult {
    pub text: String,
    pub url: String,
}

/// A generated image and the prompt the image service actually used.
#[derive(Debug)]
pub struct DrawImageResult {
    pub url: String,
    pub prompt: String,
}

/// Code or prose rendered to rich text.
#[derive(Debug)]
pub struct WriteCodeResult {
    pub content: String,
}

/// What an assistant reply carries.
#[derive(Debug)]
pub enum ChatReplyData {
    Speech(SpeechResult),
    Image(DrawImageResult),
    Markdown(WriteCodeResult),
}

pub enum ChatReplyDataView {
    Speech { text: Seq<char>, audio_url: Seq<char> },
    Image { url: Seq<char>, revised_prompt: Seq<char> },
    Markdown { html: Seq<char> },
}

impl View for ChatReplyData {
    type V = ChatReplyDataView;

    open spec fn view(&self) -> ChatReplyDataView {
        match self {
            ChatReplyData::Speech(speech) => ChatReplyDataView::Speech {
                text: speech.text@,
                audio_url: speech.url@,
            },
            ChatReplyData::Image(image) => ChatReplyDataView::Image {
                url: image.url@,
                revised_prompt: image.prompt@,
            },
            ChatReplyData::Markdown(code) => ChatReplyDataView::Markdown { html: code.content@ },
        }
    }
}

impl Clone for ChatReplyData {
    fn clone(&self) -> (copy: ChatReplyData)
        ensures
            copy@ == self@,
    {
        match self {
            ChatReplyData::Speech(speech) => ChatReplyData::Speech(
                SpeechResult { text: speech.text.clone(), url: speech.url.clone() },
            ),
            ChatReplyData::Image(image) => ChatReplyData::Image(
                DrawImageResult { url: image.url.clone(), prompt: image.prompt.clone() },
            ),
            ChatReplyData::Markdown(code) => ChatReplyData::Markdown(
                WriteCodeResult { content: code.content.clone() },
            ),
        }
    }
}

/// A final or intermediate assistant reply.
#[derive(Debug)]
pub struct ChatReplyEvent {
    pub id: String,
    pub data: ChatReplyData,
}

pub struct ChatReplyView {
    pub id: Seq<char>,
    pub data: ChatReplyDataView,
}

impl View for ChatReplyEvent {
    type V = ChatReplyView;

    open spec fn view(&self) -> ChatReplyView {
        ChatReplyView { id: self.id@, data: self.data@ }
    }
}

impl Clone for ChatReplyEvent {
    fn clone(&self) -> (copy: ChatReplyEvent)
        ensures
            copy@ == self@,
    {
        ChatReplyEvent { id: self.id.clone(), data: self.data.clone() }
    }
}

/// Everything that travels over a session's channel.
#[derive(Debug)]
pub enum AssistantEvent {
    Signal(SignalEvent),
    InputSkeleton(ChatInputSkeletonEvent),
    Input(ChatInputEvent),
    ReplySkeleton(ChatReplySkeletonEvent),
    Reply(ChatReplyEvent),
}

pub enum AssistantEventView {
    Signal(SignalView),
    InputSkeleton(ChatInputSkeletonView),
    Input(ChatInputView),
    ReplySkeleton(ChatReplySkeletonView),
    Reply(ChatReplyView),
}

impl View for AssistantEvent {
    type V = AssistantEventView;

    open spec fn view(&self) -> AssistantEventView {
        match self {
            AssistantEvent::Signal(event) => AssistantEventView::Signal(event@),
            AssistantEvent::InputSkeleton(event) => AssistantEventView::InputSkeleton(event@),
            AssistantEvent::Input(event) => AssistantEventView::Input(event@),
            AssistantEvent::ReplySkeleton(event) => AssistantEventView::ReplySkeleton(event@),
            AssistantEvent::Reply(event) => AssistantEventView::Reply(event@),
        }
    }
}

impl Clone for AssistantEvent {
    fn clone(&self) -> (copy: AssistantEvent)
        ensures
            copy@ == self@,
    {
        match self {
            AssistantEvent::Signal(event) => AssistantEvent::Signal(event.clone()),
            AssistantEvent::InputSkeleton(event) => AssistantEvent::InputSkeleton(event.clone()),
            AssistantEvent::Input(event) => AssistantEvent::Input(event.clone()),
            AssistantEvent::ReplySkeleton(event) => AssistantEvent::ReplySkeleton(event.clone()),
            AssistantEvent::Reply(event) => AssistantEvent::Reply(event.clone()),
        }
    }
}

/// The views of a sequence of events, one for one.
pub open spec fn event_views(events: Seq<AssistantEvent>) -> Seq<AssistantEventView> {
    events.map_values(|event: AssistantEvent| event@)
}

/// The turn an event belongs to; signals belong to none.
pub open spec fn turn_of(event: AssistantEventView) -> Option<Seq<char>> {
    match event {
        AssistantEventView::Signal(_) => None,
        AssistantEventView::InputSkeleton(skeleton) => Some(skeleton.id),
        AssistantEventView::Input(input) => Some(input.id),
        AssistantEventView::ReplySkeleton(skeleton) => Some(skeleton.id),
        AssistantEventView::Reply(reply) => Some(reply.id),
    }
}

pub open spec fn user_avatar() -> Seq<char> {
    "https://i.pravatar.cc/128"@
}

pub open spec fn user_name() -> Seq<char> {
    "User"@
}

pub open spec fn assistant_avatar() -> Seq<char> {
    "./public/images/ava-small.png"@
}

pub open spec fn assistant_name() -> Seq<char> {
    "Ava"@
}

pub open spec fn processing(step: AssistantStep) -> AssistantEventView {
    AssistantEventView::Signal(SignalView::Processing(step))
}

pub open spec fn completed() -> AssistantEventView {
    AssistantEventView::Signal(SignalView::Complete)
}

pub open spec fn failed(message: Seq<char>) -> AssistantEventView {
    AssistantEventView::Signal(SignalView::Error(message))
}

pub open spec fn input_skeleton(id: Seq<char>, datetime: Seq<char>) -> AssistantEventView {
    AssistantEventView::InputSkeleton(
        ChatInputSkeletonView { id, datetime, avatar: user_avatar(), name: user_name() },
    )
}

pub open spec fn input(id: Seq<char>, content: Seq<char>) -> AssistantEventView {
    AssistantEventView::Input(ChatInputView { id, content })
}

pub open spec fn reply_skeleton(id: Seq<char>) -> AssistantEventView {
    AssistantEventView::ReplySkeleton(
        ChatReplySkeletonView { id, avatar: assistant_avatar(), name: assistant_name() },
    )
}

pub open spec fn reply(id: Seq<char>, data: ChatReplyDataView) -> AssistantEventView {
    AssistantEventView::Reply(ChatReplyView { id, data })
}

pub open spec fn spoken(text: Seq<char>, audio_url: Seq<char>) -> ChatReplyDataView {
    ChatReplyDataView::Speech { text, audio_url }
}

/// The present time at UTC+8, written as year, month and day, then hour, minute and second.
/// The text is empty when the time cannot be written.
pub(crate) fn timestamp() -> (text: String) {
    let written: Option<String> = format_now(
        8, "[year]-[month]-[day] [hour]:[minute]:[second]",
    );
    stamp_of(written)
}

/// The stamp that goes with what the clock's formatter handed back: the written time, or
/// the empty text when the time could not be written.
pub open spec fn stamp_text(written: Option<Seq<char>>) -> Seq<char> {
    match written {
        Some(text) => text,
        None => Seq::empty(),
    }
}

/// Turns what the clock's formatter handed back into the stamp of an input skeleton.
pub fn stamp_of(written: Option<String>) -> (text: String)
    ensures
        text@ == stamp_text(
            match written {
                Some(found) => Some(found@),
                None => None,
            },
        ),
{
    match written {
        Some(found) => found,
        None => String::new(),
    }
}

impl ChatInputSkeletonEvent {
    /// A skeleton stamped with the present time at UTC+8, written as year, month and day,
    /// then hour, minute and second. The stamp is empty when the time cannot be written.
    pub fn new(id: &str) -> (event: ChatInputSkeletonEvent)
        ensures
            AssistantEventView::InputSkeleton(event@) == input_skeleton(id@, event@.datetime),
    {
        ChatInputSkeletonEvent::with_datetime(id, timestamp())
    }

    /// A skeleton stamped with the given timestamp text.
    pub fn with_datetime(id: &str, datetime: String) -> (event: ChatInputSkeletonEvent)
        ensures
            AssistantEventView::InputSkeleton(event@) == input_skeleton(id@, datetime@),
    {
        ChatInputSkeletonEvent {
            id: String::from_str(id),
            datetime,
            avatar: String::from_str("https://i.pravatar.cc/128"),
            name: String::from_str("User"),
        }
    }
}

impl ChatInputEvent {
    pub fn new(id: &str, content: &str) -> (event: ChatInputEvent)
        ensures
            event@ == (ChatInputView { id: id@, content: content@ }),
    {
        ChatInputEvent { id: String::from_str(id), content: String::from_str(content) }
    }
}

impl ChatReplySkeletonEvent {
    pub fn new(id: &str) -> (event: ChatReplySkeletonEvent)
        ensures
            AssistantEventView::ReplySkeleton(event@) == reply_skeleton(id@),
    {
        ChatReplySkeletonEvent {
            id: String::from_str(id),
            avatar: String::from_str("./public/images/ava-small.png"),
            name: String::from_str("Ava"),
        }
    }
}

impl ChatReplyEvent {
    pub fn new(id: &str, data: ChatReplyData) -> (event: ChatReplyEvent)
        ensures
            event@ == (ChatReplyView { id: id@, data: data@ }),
    {
        ChatReplyEvent { id: String::from_str(id), data }
    }
}

impl SpeechResult {
    pub fn new(text: &str, url: &str) -> (speech: SpeechResult)
        ensures
            speech.text@ == text@,
            speech.url@ == url@,
    {
        SpeechResult { text: String::from_str(text), url: String::from_str(url) }
    }

    /// Speech whose audio is not available yet: the URL is empty.
    pub fn new_text_only(text: &str) -> (speech: SpeechResult)
        ensures
            speech.text@ == text@,
            speech.url@ == Seq::<char>::empty(),
    {
        SpeechResult { text: String::from_str(text), url: String::new() }
    }
}

impl DrawImageResult {
    pub fn new(url: &str, prompt: &str) -> (image: DrawImageResult)
        ensures
            image.url@ == url@,
            image.prompt@ == prompt@,
    {
        DrawImageResult { url: String::from_str(url), prompt: String::from_str(prompt) }
    }
}

impl WriteCodeResult {
    pub fn new(content: String) -> (code: WriteCodeResult)
        ensures
            code.content@ == content@,
    {
        WriteCodeResult { content }
    }
}

pub fn in_audio_upload() -> (event: AssistantEvent)
    ensures
        event@ == processing(AssistantStep::UploadAudio),
{
    AssistantEvent::Signal(SignalEvent::Processing(AssistantStep::UploadAudio))
}

pub fn in_transcription() -> (event: AssistantEvent)
    ensures
        event@ == processing(AssistantStep::Transcription),
{
    AssistantEvent::Signal(SignalEvent::Processing(AssistantStep::Transcription))
}

pub fn in_thinking() -> (event: AssistantEvent)
    ensures
        event@ == processing(AssistantStep::Thinking),
{
    AssistantEvent::Signal(SignalEvent::Processing(AssistantStep::Thinking))
}

pub fn in_chat_completion() -> (event: AssistantEvent)
    ensures
        event@ == processing(AssistantStep::ChatCompletion),
{
    AssistantEvent::Signal(SignalEvent::Processing(AssistantStep::ChatCompletion))
}

pub fn in_speech() -> (event: AssistantEvent)
    ensures
        event@ == processing(AssistantStep::Speech),
{
    AssistantEvent::Signal(SignalEvent::Processing(AssistantStep::Speech))
}

pub fn in_draw_image() -> (event: AssistantEvent)
    ensures
        event@ == processing(AssistantStep::DrawImage),
{
    AssistantEvent::Signal(SignalEvent::Processing(AssistantStep::DrawImage))
}

pub fn in_write_code() -> (event: AssistantEvent)
    ensures
        event@ == processing(AssistantStep::WriteCode),
{
    AssistantEvent::Signal(SignalEvent::Processing(AssistantStep::WriteCode))
}

pub fn complete() -> (event: AssistantEvent)
    ensures
        event@ == completed(),
{
    AssistantEvent::Signal(SignalEvent::Complete)
}

pub fn error(msg: &str) -> (event: AssistantEvent)
    ensures
        event@ == failed(msg@),
{
    AssistantEvent::Signal(SignalEvent::Error(String::from_str(msg)))
}

impl From<SignalEvent> for AssistantEvent {
    fn from(value: SignalEvent) -> (wrapped: AssistantEvent) {
        AssistantEvent::Signal(value)
    }
}

impl vstd::std_specs::convert::FromSpecImpl<SignalEvent> for AssistantEvent {
    open spec fn obeys_from_spec() -> bool {
        true
    }

    open spec fn from_spec(value: SignalEvent) -> AssistantEvent {
        AssistantEvent::Signal(value)
    }
}

impl From<ChatInputSkeletonEvent> for AssistantEvent {
    fn from(value: ChatInputSkeletonEvent) -> (wrapped: AssistantEvent) {
        AssistantEvent::InputSkeleton(value)
    }
}

impl vstd::std_specs::convert::FromSpecImpl<ChatInputSkeletonEvent> for AssistantEvent {
    open spec fn obeys_from_spec() -> bool {
        true
    }

    open spec fn from_spec(value: ChatInputSkeletonEvent) -> AssistantEvent {
        AssistantEvent::InputSkeleton(value)
    }
}

impl From<ChatInputEvent> for AssistantEvent {
    fn from(value: ChatInputEvent) -> (wrapped: AssistantEvent) {
        AssistantEvent::Input(value)
    }
}

impl vstd::std_specs::convert::FromSpecImpl<ChatInputEvent> for AssistantEvent {
    open spec fn obeys_from_spec() -> bool {
        true
    }

    open spec fn from_spec(value: ChatInputEvent) -> AssistantEvent {
        AssistantEvent::Input(value)
    }
}

impl From<ChatReplySkeletonEvent> for AssistantEvent {
    fn from(value: ChatReplySkeletonEvent) -> (wrapped: AssistantEvent) {
        AssistantEvent::ReplySkeleton(value)
    }
}

impl vstd::std_specs::convert::FromSpecImpl<ChatReplySkeletonEvent> for AssistantEvent {
    open spec fn obeys_from_spec() -> bool {
        true
    }

    open spec fn from_spec(value: ChatReplySkeletonEvent) -> AssistantEvent {
        AssistantEvent::ReplySkeleton(value)
    }
}

impl From<ChatReplyEvent> for AssistantEvent {
    fn from(value: ChatReplyEvent) -> (wrapped: AssistantEvent) {
        AssistantEvent::Reply(value)
    }
}

impl vstd::std_specs::convert::FromSpecImpl<ChatReplyEvent> for AssistantEvent {
    open spec fn obeys_from_spec() -> bool {
        true
    }

    open spec fn from_spec(value: ChatReplyEvent) -> AssistantEvent {
        AssistantEvent::Reply(value)
    }
}

impl From<SpeechResult> for ChatReplyData {
    fn from(value: SpeechResult) -> (wrapped: ChatReplyData) {
        ChatReplyData::Speech(value)
    }
}

impl vstd::std_specs::convert::FromSpecImpl<SpeechResult> for ChatReplyData {
    open spec fn obeys_from_spec() -> bool {
        true
    }

    open spec fn from_spec(value: SpeechResult) -> ChatReplyData {
        ChatReplyData::Speech(value)
    }
}

impl From<DrawImageResult> for ChatReplyData {
    fn from(value: DrawImageResult) -> (wrapped: ChatReplyData) {
        ChatReplyData::Image(value)
    }
}

impl vstd::std_specs::convert::FromSpecImpl<DrawImageResult> for ChatReplyData {
    open spec fn obeys_from_spec() -> bool {
        true
    }

    open spec fn from_spec(value: DrawImageResult) -> ChatReplyData {
        ChatReplyData::Image(value)
    }
}

impl From<WriteCodeResult> for ChatReplyData {
    fn from(value: WriteCodeResult) -> (wrapped: ChatReplyData) {
        ChatReplyData::Markdown(value)
    }
}

impl vstd::std_specs::convert::FromSpecImpl<WriteCodeResult> for ChatReplyData {
    open spec fn obeys_from_spec() -> bool {
        true
    }

    open spec fn from_spec(value: WriteCodeResult) -> ChatReplyData {
        ChatReplyData::Markdown(value)
    }
}

} // verus!
