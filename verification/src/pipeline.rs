//! The staged pipeline of one submitted clip, as a state machine.
//!
//! A run never performs outside work itself. Each step takes what came back from the work
//! the previous step asked for, and says which events to publish and what to do next.

use crate::bus::{published_all, Registry};
use crate::error::{AppError, AppErrorView, ErrorKind};
use crate::events::{complete, completed, error, event_views, failed, in_audio_upload, in_speech,
    in_thinking, in_transcription, input, input_skeleton, processing, reply, reply_skeleton,
    spoken, timestamp, AssistantEvent, AssistantEventView, AssistantStep, ChatInputEvent,
    ChatInputSkeletonEvent, ChatReplyData, ChatReplyDataView, ChatReplyEvent,
    ChatReplySkeletonEvent, DrawImageResult, SignalEvent, SpeechResult, WriteCodeResult};
use crate::paths::{audio_path, audio_path_of, audio_url, audio_url_of, image_path, image_path_of,
    image_url, image_url_of};
use crate::tools::{arguments_view, bytes_view, code_theme, decode_image, image_bytes_of, md2html,
    parse_arguments, parsed_arguments, tool_named, tool_step, unknown_tool, AssistantTool,
    ToolArgs};
use crate::trusted::{base64_decoded, fresh_token, markdown_html};
use vstd::prelude::*;
use vstd::string::StringExecFns;

verus! {

/// Why a completion ended.
#[derive(Clone, Copy, Debug, PartialEq, Eq, Structural)]
pub enum FinishReason {
    Stop,
    Length,
    ContentFilter,
    ToolCalls,
}

/// A tool requested by a completion: its name and its raw argument string.
#[derive(Debug)]
pub struct ToolCall {
    pub name: String,
    pub arguments: String,
}

pub struct ToolCallView {
    pub name: Seq<char>,
    pub arguments: Seq<char>,
}

impl View for ToolCall {
    type V = ToolCallView;

    open spec fn view(&self) -> ToolCallView {
        ToolCallView { name: self.name@, arguments: self.arguments@ }
    }
}

/// The answer of a completion service: final text, or the first tool it asks for.
#[derive(Debug)]
pub struct Choice {
    pub finish_reason: FinishReason,
    pub content: Option<String>,
    pub tool_call: Option<ToolCall>,
}

pub struct ChoiceView {
    pub finish_reason: FinishReason,
    pub content: Option<Seq<char>>,
    pub tool_call: Option<ToolCallView>,
}

impl View for Choice {
    type V = ChoiceView;

    open spec fn view(&self) -> ChoiceView {
        ChoiceView {
            finish_reason: self.finish_reason,
            content: match self.content {
                Some(text) => Some(text@),
                None => None,
            },
            tool_call: match self.tool_call {
                Some(call) => Some(call@),
                None => None,
            },
        }
    }
}

/// An image as the image service hands it over.
#[derive(Debug)]
pub struct GeneratedImage {
    pub b64_json: Option<String>,
    pub revised_prompt: String,
}

pub struct GeneratedImageView {
    pub b64_json: Option<Seq<char>>,
    pub revised_prompt: Seq<char>,
}

impl View for GeneratedImage {
    type V = GeneratedImageView;

    open spec fn view(&self) -> GeneratedImageView {
        GeneratedImageView {
            b64_json: match self.b64_json {
                Some(text) => Some(text@),
                None => None,
            },
            revised_prompt: self.revised_prompt@,
        }
    }
}

/// What came back from the work that the previous step asked for.
#[derive(Debug)]
pub enum Outcome {
    /// The uploaded clip, read into memory.
    Audio(Vec<u8>),
    /// The transcript of the clip.
    Transcript(String),
    /// The last choice of a completion, if it had any.
    Completion(Option<Choice>),
    /// Synthesized speech.
    Speech(Vec<u8>),
    /// The last image of a generation, if it had any.
    Image(Option<GeneratedImage>),
    /// An artifact was persisted.
    Stored,
    /// The work failed.
    Failure(AppError),
}

pub enum OutcomeView {
    Audio(Seq<u8>),
    Transcript(Seq<char>),
    Completion(Option<ChoiceView>),
    Speech(Seq<u8>),
    Image(Option<GeneratedImageView>),
    Stored,
    Failure(AppErrorView),
}

impl View for Outcome {
    type V = OutcomeView;

    open spec fn view(&self) -> OutcomeView {
        match self {
            Outcome::Audio(bytes) => OutcomeView::Audio(bytes@),
            Outcome::Transcript(text) => OutcomeView::Transcript(text@),
            Outcome::Completion(choice) => OutcomeView::Completion(
                match choice {
                    Some(choice) => Some(choice@),
                    None => None,
                },
            ),
            Outcome::Speech(bytes) => OutcomeView::Speech(bytes@),
            Outcome::Image(image) => OutcomeView::Image(
                match image {
                    Some(image) => Some(image@),
                    None => None,
                },
            ),
            Outcome::Stored => OutcomeView::Stored,
            Outcome::Failure(failure) => OutcomeView::Failure(failure@),
        }
    }
}

/// The work a run asks its environment to do next.
#[derive(Debug)]
pub enum Action {
    /// Read the uploaded clip into memory.
    ReadAudio,
    /// Transcribe the clip, with a hint on the expected language.
    Transcribe { audio: Vec<u8>, hint: String },
    /// Ask the tool-enabled completion service, with the prompt as the sole user turn.
    CompleteWithTools { prompt: String },
    /// Ask the plain completion service with a system message and a user message.
    Complete { system: String, prompt: String },
    /// Generate an image.
    GenerateImage { prompt: String },
    /// Synthesize speech in the given voice.
    Synthesize { text: String, voice: String },
    /// Persist an artifact.
    Store { path: String, bytes: Vec<u8> },
    /// Nothing: the run has ended.
    Stop,
}

pub enum ActionView {
    ReadAudio,
    Transcribe { audio: Seq<u8>, hint: Seq<char> },
    CompleteWithTools { prompt: Seq<char> },
    Complete { system: Seq<char>, prompt: Seq<char> },
    GenerateImage { prompt: Seq<char> },
    Synthesize { text: Seq<char>, voice: Seq<char> },
    Store { path: Seq<char>, bytes: Seq<u8> },
    Stop,
}

impl View for Action {
    type V = ActionView;

    open spec fn view(&self) -> ActionView {
        match self {
            Action::ReadAudio => ActionView::ReadAudio,
            Action::Transcribe { audio, hint } => ActionView::Transcribe {
                audio: audio@,
                hint: hint@,
            },
            Action::CompleteWithTools { prompt } => ActionView::CompleteWithTools {
                prompt: prompt@,
            },
            Action::Complete { system, prompt } => ActionView::Complete {
                system: system@,
                prompt: prompt@,
            },
            Action::GenerateImage { prompt } => ActionView::GenerateImage { prompt: prompt@ },
            Action::Synthesize { text, voice } => ActionView::Synthesize {
                text: text@,
                voice: voice@,
            },
            Action::Store { path, bytes } => ActionView::Store { path: path@, bytes: bytes@ },
            Action::Stop => ActionView::Stop,
        }
    }
}

/// Where a run stands: the answer it waits for, or how it ended.
#[derive(Debug)]
pub enum Stage {
    Uploading,
    Transcribing,
    Thinking,
    Drawing,
    StoringImage { url: String, revised_prompt: String },
    Coding,
    Answering,
    Speaking { text: String },
    StoringSpeech { text: String, url: String },
    Finished,
    Failed,
}

pub enum StageView {
    Uploading,
    Transcribing,
    Thinking,
    Drawing,
    StoringImage { url: Seq<char>, revised_prompt: Seq<char> },
    Coding,
    Answering,
    Speaking { text: Seq<char> },
    StoringSpeech { text: Seq<char>, url: Seq<char> },
    Finished,
    Failed,
}

impl View for Stage {
    type V = StageView;

    open spec fn view(&self) -> StageView {
        match self {
            Stage::Uploading => StageView::Uploading,
            Stage::Transcribing => StageView::Transcribing,
            Stage::Thinking => StageView::Thinking,
            Stage::Drawing => StageView::Drawing,
            Stage::StoringImage { url, revised_prompt } => StageView::StoringImage {
                url: url@,
                revised_prompt: revised_prompt@,
            },
            Stage::Coding => StageView::Coding,
            Stage::Answering => StageView::Answering,
            Stage::Speaking { text } => StageView::Speaking { text: text@ },
            Stage::StoringSpeech { text, url } => StageView::StoringSpeech {
                text: text@,
                url: url@,
            },
            Stage::Finished => StageView::Finished,
            Stage::Failed => StageView::Failed,
        }
    }
}

/// One execution of the pipeline for one submitted clip.
#[derive(Debug)]
pub struct Run {
    pub session: String,
    pub turn_id: String,
    pub stage: Stage,
}

pub struct RunView {
    pub session: Seq<char>,
    pub turn_id: Seq<char>,
    pub stage: StageView,
}

impl View for Run {
    type V = RunView;

    open spec fn view(&self) -> RunView {
        RunView { session: self.session@, turn_id: self.turn_id@, stage: self.stage@ }
    }
}

/// What one step of a run produces: the events to publish, in order, the work to do next,
/// and the failure that ended the run, if one did.
#[derive(Debug)]
pub struct Step {
    pub events: Vec<AssistantEvent>,
    pub action: Action,
    pub failure: Option<AppError>,
}

/// A run after a step, with what the step produced.
pub struct Transition {
    pub run: RunView,
    pub events: Seq<AssistantEventView>,
    pub action: ActionView,
    pub failure: Option<AppErrorView>,
}

pub open spec fn step_taken(run: Run, step: Step) -> Transition {
    Transition {
        run: run@,
        events: event_views(step.events@),
        action: step.action@,
        failure: match step.failure {
            Some(failure) => Some(failure@),
            None => None,
        },
    }
}

/// What the world outside contributes to a step: a fresh artifact identifier and the
/// present time as text.
pub struct Oracle {
    pub artifact: Seq<char>,
    pub datetime: Seq<char>,
}

pub open spec fn locale_hint() -> Seq<char> {
    "If audio language is Chinese, please use Simplified Chinese"@
}

pub open spec fn coding_brief() -> Seq<char> {
    "I'm an expert on coding, I'll write code for you in markdown format based on your prompt"@
}

pub open spec fn answering_brief() -> Seq<char> {
    "I can help answer anything you'd like to chat"@
}

pub open spec fn speech_voice() -> Seq<char> {
    "alloy"@
}

pub open spec fn no_choice() -> AppErrorView {
    AppErrorView { kind: ErrorKind::UpstreamService, message: "expect at least one choice"@ }
}

pub open spec fn no_content() -> AppErrorView {
    AppErrorView {
        kind: ErrorKind::UpstreamService,
        message: "expect content but no content available"@,
    }
}

pub open spec fn no_image() -> AppErrorView {
    AppErrorView { kind: ErrorKind::UpstreamService, message: "expect at least one data"@ }
}

pub open spec fn no_image_data() -> AppErrorView {
    AppErrorView {
        kind: ErrorKind::UpstreamService,
        message: "expect image data but no data available"@,
    }
}

pub open spec fn unsupported_finish() -> AppErrorView {
    AppErrorView {
        kind: ErrorKind::UnsupportedFinishReason,
        message: "stop reason not supported"@,
    }
}

pub open spec fn unexpected_outcome() -> AppErrorView {
    AppErrorView { kind: ErrorKind::UpstreamService, message: "unexpected outcome"@ }
}

/// The run ends in failure: one error signal and nothing more.
pub open spec fn halted(run: RunView, failure: AppErrorView) -> Transition {
    Transition {
        run: RunView { session: run.session, turn_id: run.turn_id, stage: StageView::Failed },
        events: seq![failed(failure.message)],
        action: ActionView::Stop,
        failure: Some(failure),
    }
}

/// The run moves on to `stage`.
pub open spec fn moved(
    session: Seq<char>,
    turn_id: Seq<char>,
    stage: StageView,
    events: Seq<AssistantEventView>,
    action: ActionView,
) -> Transition {
    Transition { run: RunView { session, turn_id, stage }, events, action, failure: None }
}

/// A run that has ended ignores what it is told.
pub open spec fn rested(run: RunView) -> Transition {
    Transition { run, events: Seq::empty(), action: ActionView::Stop, failure: None }
}

/// The first step of a run: the upload is announced and the clip is asked for.
pub open spec fn begun(session: Seq<char>, turn_id: Seq<char>) -> Transition {
    Transition {
        run: RunView { session, turn_id, stage: StageView::Uploading },
        events: seq![processing(AssistantStep::UploadAudio)],
        action: ActionView::ReadAudio,
        failure: None,
    }
}

pub open spec fn after_audio(run: RunView, audio: Seq<u8>, datetime: Seq<char>) -> Transition {
    moved(
        run.session,
        run.turn_id,
        StageView::Transcribing,
        seq![processing(AssistantStep::Transcription), input_skeleton(run.turn_id, datetime)],
        ActionView::Transcribe { audio, hint: locale_hint() },
    )
}

pub open spec fn after_transcript(run: RunView, text: Seq<char>) -> Transition {
    moved(
        run.session,
        run.turn_id,
        StageView::Thinking,
        seq![
            input(run.turn_id, text),
            processing(AssistantStep::Thinking),
            reply_skeleton(run.turn_id),
        ],
        ActionView::CompleteWithTools { prompt: text },
    )
}

/// The text is shown at once and its speech is asked for.
pub open spec fn speaking(run: RunView, lead: Seq<AssistantEventView>, text: Seq<char>)
    -> Transition {
    moved(
        run.session,
        run.turn_id,
        StageView::Speaking { text },
        lead,
        ActionView::Synthesize { text, voice: speech_voice() },
    )
}

pub open spec fn tool_stage(tool: AssistantTool) -> StageView {
    match tool {
        AssistantTool::DrawImage => StageView::Drawing,
        AssistantTool::WriteCode => StageView::Coding,
        AssistantTool::Answer => StageView::Answering,
    }
}

pub open spec fn tool_action(tool: AssistantTool, prompt: Seq<char>) -> ActionView {
    match tool {
        AssistantTool::DrawImage => ActionView::GenerateImage { prompt },
        AssistantTool::WriteCode => ActionView::Complete { system: coding_brief(), prompt },
        AssistantTool::Answer => ActionView::Complete { system: answering_brief(), prompt },
    }
}

/// A resolved tool with readable arguments starts its branch; an unknown tool or unreadable
/// arguments end the run.
pub open spec fn tool_started(
    run: RunView,
    tool: Option<AssistantTool>,
    arguments: Result<Seq<char>, AppErrorView>,
) -> Transition {
    match tool {
        None => halted(run, unknown_tool()),
        Some(tool) => match arguments {
            Err(failure) => halted(run, failure),
            Ok(prompt) => moved(
                run.session,
                run.turn_id,
                tool_stage(tool),
                seq![processing(tool_step(tool))],
                tool_action(tool, prompt),
            ),
        },
    }
}

pub open spec fn dispatched(run: RunView, call: Option<ToolCallView>) -> Transition {
    match call {
        None => halted(run, unknown_tool()),
        Some(call) => tool_started(run, tool_named(call.name), parsed_arguments(call.arguments)),
    }
}

pub open spec fn after_thinking(run: RunView, choice: Option<ChoiceView>) -> Transition {
    match choice {
        None => halted(run, no_choice()),
        Some(choice) => match choice.finish_reason {
            FinishReason::Stop => match choice.content {
                Some(text) => speaking(
                    run,
                    seq![
                        processing(AssistantStep::Speech),
                        reply(run.turn_id, spoken(text, Seq::empty())),
                    ],
                    text,
                ),
                None => halted(run, no_content()),
            },
            FinishReason::ToolCalls => dispatched(run, choice.tool_call),
            _ => halted(run, unsupported_finish()),
        },
    }
}

/// The text of a plain completion, or why it has none.
pub open spec fn completion_text(choice: Option<ChoiceView>) -> Result<Seq<char>, AppErrorView> {
    match choice {
        None => Err(no_choice()),
        Some(choice) => match choice.content {
            Some(text) => Ok(text),
            None => Err(no_content()),
        },
    }
}

/// The decoded image is handed over for storing under a fresh name.
pub open spec fn image_decoded(
    run: RunView,
    bytes: Result<Seq<u8>, AppErrorView>,
    revised_prompt: Seq<char>,
    artifact: Seq<char>,
) -> Transition {
    match bytes {
        Err(failure) => halted(run, failure),
        Ok(bytes) => moved(
            run.session,
            run.turn_id,
            StageView::StoringImage { url: image_url_of(run.session, artifact), revised_prompt },
            Seq::empty(),
            ActionView::Store { path: image_path_of(run.session, artifact), bytes },
        ),
    }
}

pub open spec fn after_image(run: RunView, image: Option<GeneratedImageView>, artifact: Seq<char>)
    -> Transition {
    match image {
        None => halted(run, no_image()),
        Some(image) => match image.b64_json {
            None => halted(run, no_image_data()),
            Some(text) => image_decoded(
                run,
                image_bytes_of(base64_decoded(text)),
                image.revised_prompt,
                artifact,
            ),
        },
    }
}

/// The run ends with its last reply.
pub open spec fn finished(session: Seq<char>, turn_id: Seq<char>, data: ChatReplyDataView)
    -> Transition {
    moved(
        session,
        turn_id,
        StageView::Finished,
        seq![completed(), reply(turn_id, data)],
        ActionView::Stop,
    )
}

pub open spec fn after_code(run: RunView, choice: Option<ChoiceView>) -> Transition {
    match completion_text(choice) {
        Err(failure) => halted(run, failure),
        Ok(markdown) => finished(
            run.session,
            run.turn_id,
            ChatReplyDataView::Markdown { html: markdown_html(markdown, code_theme()) },
        ),
    }
}

pub open spec fn after_answer(run: RunView, choice: Option<ChoiceView>) -> Transition {
    match completion_text(choice) {
        Err(failure) => halted(run, failure),
        Ok(text) => speaking(
            run,
            seq![
                completed(),
                reply(run.turn_id, spoken(text, Seq::empty())),
                processing(AssistantStep::Speech),
            ],
            text,
        ),
    }
}

pub open spec fn after_speech(run: RunView, text: Seq<char>, audio: Seq<u8>, artifact: Seq<char>)
    -> Transition {
    moved(
        run.session,
        run.turn_id,
        StageView::StoringSpeech { text, url: audio_url_of(run.session, artifact) },
        Seq::empty(),
        ActionView::Store { path: audio_path_of(run.session, artifact), bytes: audio },
    )
}

/// The step that a run takes on an outcome, given what the world outside contributes.
pub open spec fn transition(run: RunView, outcome: OutcomeView, oracle: Oracle) -> Transition {
    match (run.stage, outcome) {
        (StageView::Finished, _) => rested(run),
        (StageView::Failed, _) => rested(run),
        (_, OutcomeView::Failure(failure)) => halted(run, failure),
        (StageView::Uploading, OutcomeView::Audio(audio)) => after_audio(
            run,
            audio,
            oracle.datetime,
        ),
        (StageView::Transcribing, OutcomeView::Transcript(text)) => after_transcript(run, text),
        (StageView::Thinking, OutcomeView::Completion(choice)) => after_thinking(run, choice),
        (StageView::Drawing, OutcomeView::Image(image)) => after_image(
            run,
            image,
            oracle.artifact,
        ),
        (StageView::StoringImage { url, revised_prompt }, OutcomeView::Stored) => finished(
            run.session,
            run.turn_id,
            ChatReplyDataView::Image { url, revised_prompt },
        ),
        (StageView::Coding, OutcomeView::Completion(choice)) => after_code(run, choice),
        (StageView::Answering, OutcomeView::Completion(choice)) => after_answer(run, choice),
        (StageView::Speaking { text }, OutcomeView::Speech(audio)) => after_speech(
            run,
            text,
            audio,
            oracle.artifact,
        ),
        (StageView::StoringSpeech { text, url }, OutcomeView::Stored) => finished(
            run.session,
            run.turn_id,
            spoken(text, url),
        ),
        _ => halted(run, unexpected_outcome()),
    }
}

fn events1(first: AssistantEvent) -> (events: Vec<AssistantEvent>)
    ensures
        event_views(events@) == seq![first@],
{
    let mut events: Vec<AssistantEvent> = Vec::new();
    events.push(first);
    assert(event_views(events@) =~= seq![first@]);
    events
}

fn events2(first: AssistantEvent, second: AssistantEvent) -> (events: Vec<AssistantEvent>)
    ensures
        event_views(events@) == seq![first@, second@],
{
    let mut events: Vec<AssistantEvent> = Vec::new();
    events.push(first);
    events.push(second);
    assert(event_views(events@) =~= seq![first@, second@]);
    events
}

fn events3(first: AssistantEvent, second: AssistantEvent, third: AssistantEvent) -> (events: Vec<
    AssistantEvent,
>)
    ensures
        event_views(events@) == seq![first@, second@, third@],
{
    let mut events: Vec<AssistantEvent> = Vec::new();
    events.push(first);
    events.push(second);
    events.push(third);
    assert(event_views(events@) =~= seq![first@, second@, third@]);
    events
}

fn no_events() -> (events: Vec<AssistantEvent>)
    ensures
        event_views(events@) == Seq::<AssistantEventView>::empty(),
{
    let events: Vec<AssistantEvent> = Vec::new();
    assert(event_views(events@) =~= Seq::<AssistantEventView>::empty());
    events
}

fn text_reply(turn_id: &str, text: &str) -> (event: AssistantEvent)
    ensures
        event@ == reply(turn_id@, spoken(text@, Seq::empty())),
{
    AssistantEvent::Reply(
        ChatReplyEvent::new(turn_id, ChatReplyData::Speech(SpeechResult::new_text_only(text))),
    )
}

/// Ends a run in failure: the failure's message is published as the run's one error signal.
pub fn halt(run: Run, failure: AppError) -> (next: (Run, Step))
    ensures
        step_taken(next.0, next.1) == halted(run@, failure@),
{
    let events = events1(error(failure.message.as_str()));
    (
        Run { session: run.session, turn_id: run.turn_id, stage: Stage::Failed },
        Step { events, action: Action::Stop, failure: Some(failure) },
    )
}

fn proceed(
    session: String,
    turn_id: String,
    stage: Stage,
    events: Vec<AssistantEvent>,
    action: Action,
) -> (next: (Run, Step))
    ensures
        step_taken(next.0, next.1) == moved(
            session@,
            turn_id@,
            stage@,
            event_views(events@),
            action@,
        ),
{
    (Run { session, turn_id, stage }, Step { events, action, failure: None })
}

fn speak(run: Run, lead: Vec<AssistantEvent>, text: String) -> (next: (Run, Step))
    ensures
        step_taken(next.0, next.1) == speaking(run@, event_views(lead@), text@),
{
    let action = Action::Synthesize { text: text.clone(), voice: String::from_str("alloy") };
    proceed(run.session, run.turn_id, Stage::Speaking { text }, lead, action)
}

fn finish(session: String, turn_id: String, data: ChatReplyData) -> (next: (Run, Step))
    ensures
        step_taken(next.0, next.1) == finished(session@, turn_id@, data@),
{
    let events = events2(
        complete(),
        AssistantEvent::Reply(ChatReplyEvent::new(turn_id.as_str(), data)),
    );
    proceed(session, turn_id, Stage::Finished, events, Action::Stop)
}

/// Starts the branch of a resolved tool with its parsed arguments, or ends the run when the
/// tool is unknown or the arguments could not be read.
pub fn start_tool(run: Run, tool: Option<AssistantTool>, arguments: Result<ToolArgs, AppError>)
    -> (next: (Run, Step))
    ensures
        step_taken(next.0, next.1) == tool_started(run@, tool, arguments_view(arguments)),
{
    match tool {
        None => halt(
            run,
            AppError::new(ErrorKind::UnknownTool, "no proper tool found at the moment"),
        ),
        Some(tool) => match arguments {
            Err(failure) => halt(run, failure),
            Ok(args) => {
                let events = events1(
                    AssistantEvent::Signal(SignalEvent::Processing(tool.step())),
                );
                match tool {
                    AssistantTool::DrawImage => proceed(
                        run.session,
                        run.turn_id,
                        Stage::Drawing,
                        events,
                        Action::GenerateImage { prompt: args.prompt },
                    ),
                    AssistantTool::WriteCode => proceed(
                        run.session,
                        run.turn_id,
                        Stage::Coding,
                        events,
                        Action::Complete {
                            system: String::from_str(
                                "I'm an expert on coding, I'll write code for you in markdown format based on your prompt",
                            ),
                            prompt: args.prompt,
                        },
                    ),
                    AssistantTool::Answer => proceed(
                        run.session,
                        run.turn_id,
                        Stage::Answering,
                        events,
                        Action::Complete {
                            system: String::from_str(
                                "I can help answer anything you'd like to chat",
                            ),
                            prompt: args.prompt,
                        },
                    ),
                }
            },
        },
    }
}

/// Resolves the requested tool, parses its arguments and starts its branch.
pub fn dispatch(run: Run, call: Option<ToolCall>) -> (next: (Run, Step))
    ensures
        step_taken(next.0, next.1) == dispatched(
            run@,
            match call {
                Some(call) => Some(call@),
                None => None,
            },
        ),
{
    match call {
        None => halt(
            run,
            AppError::new(ErrorKind::UnknownTool, "no proper tool found at the moment"),
        ),
        Some(call) => {
            let tool = match AssistantTool::from_name(call.name.as_str()) {
                Ok(tool) => Some(tool),
                Err(_) => None,
            };
            start_tool(run, tool, parse_arguments(call.arguments.as_str()))
        },
    }
}

/// Hands decoded image bytes over for storing under the artifact name, or ends the run when
/// there are none.
pub fn store_image(
    run: Run,
    bytes: Result<Vec<u8>, AppError>,
    revised_prompt: String,
    artifact: &str,
) -> (next: (Run, Step))
    ensures
        step_taken(next.0, next.1) == image_decoded(
            run@,
            bytes_view(bytes),
            revised_prompt@,
            artifact@,
        ),
{
    match bytes {
        Err(failure) => halt(run, failure),
        Ok(bytes) => {
            let url = image_url(run.session.as_str(), artifact);
            let path = image_path(run.session.as_str(), artifact);
            proceed(
                run.session,
                run.turn_id,
                Stage::StoringImage { url, revised_prompt },
                no_events(),
                Action::Store { path, bytes },
            )
        },
    }
}

fn text_of(choice: Option<Choice>) -> (text: Result<String, AppError>)
    ensures
        match text {
            Ok(found) => completion_text(
                match choice {
                    Some(choice) => Some(choice@),
                    None => None,
                },
            ) == Ok::<Seq<char>, AppErrorView>(found@),
            Err(failure) => completion_text(
                match choice {
                    Some(choice) => Some(choice@),
                    None => None,
                },
            ) == Err::<Seq<char>, AppErrorView>(failure@),
        },
{
    match choice {
        None => Err(AppError::new(ErrorKind::UpstreamService, "expect at least one choice")),
        Some(choice) => match choice.content {
            Some(text) => Ok(text),
            None => Err(
                AppError::new(
                    ErrorKind::UpstreamService,
                    "expect content but no content available",
                ),
            ),
        },
    }
}

fn think(run: Run, choice: Option<Choice>) -> (next: (Run, Step))
    ensures
        step_taken(next.0, next.1) == after_thinking(
            run@,
            match choice {
                Some(choice) => Some(choice@),
                None => None,
            },
        ),
{
    match choice {
        None => halt(
            run,
            AppError::new(ErrorKind::UpstreamService, "expect at least one choice"),
        ),
        Some(choice) => match choice.finish_reason {
            FinishReason::Stop => match choice.content {
                Some(text) => {
                    let lead = events2(
                        in_speech(),
                        text_reply(run.turn_id.as_str(), text.as_str()),
                    );
                    speak(run, lead, text)
                },
                None => halt(
                    run,
                    AppError::new(
                        ErrorKind::UpstreamService,
                        "expect content but no content available",
                    ),
                ),
            },
            FinishReason::ToolCalls => dispatch(run, choice.tool_call),
            _ => halt(
                run,
                AppError::new(ErrorKind::UnsupportedFinishReason, "stop reason not supported"),
            ),
        },
    }
}

fn draw(run: Run, image: Option<GeneratedImage>, artifact: &str) -> (next: (Run, Step))
    ensures
        step_taken(next.0, next.1) == after_image(
            run@,
            match image {
                Some(image) => Some(image@),
                None => None,
            },
            artifact@,
        ),
{
    match image {
        None => halt(run, AppError::new(ErrorKind::UpstreamService, "expect at least one data")),
        Some(image) => match image.b64_json {
            None => halt(
                run,
                AppError::new(
                    ErrorKind::UpstreamService,
                    "expect image data but no data available",
                ),
            ),
            Some(text) => store_image(
                run,
                decode_image(text.as_str()),
                image.revised_prompt,
                artifact,
            ),
        },
    }
}

impl Run {
    /// The first step of a run with a given turn identifier.
    pub fn begin_with(session: &str, turn_id: &str) -> (next: (Run, Step))
        ensures
            step_taken(next.0, next.1) == begun(session@, turn_id@),
    {
        (
            Run {
                session: String::from_str(session),
                turn_id: String::from_str(turn_id),
                stage: Stage::Uploading,
            },
            Step { events: events1(in_audio_upload()), action: Action::ReadAudio, failure: None },
        )
    }

    /// The first step of a run under a freshly generated turn identifier.
    pub fn begin(session: &str) -> (next: (Run, Step))
        ensures
            step_taken(next.0, next.1) == begun(session@, next.0@.turn_id),
    {
        let turn_id = fresh_token();
        Run::begin_with(session, turn_id.as_str())
    }

    /// Whether the run has ended, in success or in failure.
    pub fn is_over(&self) -> (over: bool)
        ensures
            over == (self@.stage is Finished || self@.stage is Failed),
    {
        match self.stage {
            Stage::Finished => true,
            Stage::Failed => true,
            _ => false,
        }
    }

    /// One step of the run on `outcome`, with the artifact name and the timestamp text that
    /// the step may need.
    pub fn advance_with(self, outcome: Outcome, artifact: &str, datetime: String) -> (next: (
        Run,
        Step,
    ))
        ensures
            step_taken(next.0, next.1) == transition(
                self@,
                outcome@,
                Oracle { artifact: artifact@, datetime: datetime@ },
            ),
    {
        if self.is_over() {
            return (self, Step { events: no_events(), action: Action::Stop, failure: None });
        }
        match outcome {
            Outcome::Failure(failure) => halt(self, failure),
            Outcome::Audio(audio) => match self.stage {
                Stage::Uploading => {
                    let events = events2(
                        in_transcription(),
                        AssistantEvent::InputSkeleton(
                            ChatInputSkeletonEvent::with_datetime(
                                self.turn_id.as_str(),
                                datetime,
                            ),
                        ),
                    );
                    let hint = String::from_str(
                        "If audio language is Chinese, please use Simplified Chinese",
                    );
                    proceed(
                        self.session,
                        self.turn_id,
                        Stage::Transcribing,
                        events,
                        Action::Transcribe { audio, hint },
                    )
                },
                _ => halt(self, AppError::new(ErrorKind::UpstreamService, "unexpected outcome")),
            },
            Outcome::Transcript(text) => match self.stage {
                Stage::Transcribing => {
                    let events = events3(
                        AssistantEvent::Input(
                            ChatInputEvent::new(self.turn_id.as_str(), text.as_str()),
                        ),
                        in_thinking(),
                        AssistantEvent::ReplySkeleton(
                            ChatReplySkeletonEvent::new(self.turn_id.as_str()),
                        ),
                    );
                    proceed(
                        self.session,
                        self.turn_id,
                        Stage::Thinking,
                        events,
                        Action::CompleteWithTools { prompt: text },
                    )
                },
                _ => halt(self, AppError::new(ErrorKind::UpstreamService, "unexpected outcome")),
            },
            Outcome::Completion(choice) => match self.stage {
                Stage::Thinking => think(self, choice),
                Stage::Coding => match text_of(choice) {
                    Err(failure) => halt(self, failure),
                    Ok(markdown) => {
                        let html = md2html(markdown.as_str());
                        finish(
                            self.session,
                            self.turn_id,
                            ChatReplyData::Markdown(WriteCodeResult::new(html)),
                        )
                    },
                },
                Stage::Answering => match text_of(choice) {
                    Err(failure) => halt(self, failure),
                    Ok(text) => {
                        let lead = events3(
                            complete(),
                            text_reply(self.turn_id.as_str(), text.as_str()),
                            in_speech(),
                        );
                        speak(self, lead, text)
                    },
                },
                _ => halt(self, AppError::new(ErrorKind::UpstreamService, "unexpected outcome")),
            },
            Outcome::Image(image) => match self.stage {
                Stage::Drawing => draw(self, image, artifact),
                _ => halt(self, AppError::new(ErrorKind::UpstreamService, "unexpected outcome")),
            },
            Outcome::Speech(audio) => {
                let Run { session, turn_id, stage } = self;
                match stage {
                    Stage::Speaking { text } => {
                        let url = audio_url(session.as_str(), artifact);
                        let path = audio_path(session.as_str(), artifact);
                        proceed(
                            session,
                            turn_id,
                            Stage::StoringSpeech { text, url },
                            no_events(),
                            Action::Store { path, bytes: audio },
                        )
                    },
                    stage => halt(
                        Run { session, turn_id, stage },
                        AppError::new(ErrorKind::UpstreamService, "unexpected outcome"),
                    ),
                }
            },
            Outcome::Stored => {
                let Run { session, turn_id, stage } = self;
                match stage {
                    Stage::StoringImage { url, revised_prompt } => finish(
                        session,
                        turn_id,
                        ChatReplyData::Image(DrawImageResult { url, prompt: revised_prompt }),
                    ),
                    Stage::StoringSpeech { text, url } => finish(
                        session,
                        turn_id,
                        ChatReplyData::Speech(SpeechResult { text, url }),
                    ),
                    stage => halt(
                        Run { session, turn_id, stage },
                        AppError::new(ErrorKind::UpstreamService, "unexpected outcome"),
                    ),
                }
            },
        }
    }

    /// One step of the run on `outcome`. Where the step stores an artifact its name is
    /// freshly generated, and where it stamps the input skeleton the stamp is the present
    /// time at UTC+8. This function decides neither: the step is the one that `transition`
    /// gives for whatever the two turned out to be.
    pub fn advance(self, outcome: Outcome) -> (next: (Run, Step))
        ensures
            exists|oracle: Oracle| step_taken(next.0, next.1) == transition(
                self@,
                outcome@,
                oracle,
            ),
    {
        let artifact = match self.stage {
            Stage::Drawing => fresh_token(),
            Stage::Speaking { .. } => fresh_token(),
            _ => String::new(),
        };
        let datetime = match self.stage {
            Stage::Uploading => timestamp(),
            _ => String::new(),
        };
        let ghost oracle = Oracle { artifact: artifact@, datetime: datetime@ };
        let next = self.advance_with(outcome, artifact.as_str(), datetime);
        assert(step_taken(next.0, next.1) == transition(self@, outcome@, oracle));
        next
    }
}

/// No step publishes more events than this.
pub const MAX_STEP_EVENTS: u64 = 3;

/// A step publishes at most `MAX_STEP_EVENTS` events.
pub proof fn lemma_step_is_short(run: RunView, outcome: OutcomeView, oracle: Oracle)
    ensures
        transition(run, outcome, oracle).events.len() <= MAX_STEP_EVENTS,
{
}

/// The status that the caller who submitted the clip is told.
pub open spec fn status_of(stage: StageView) -> Seq<char> {
    if stage is Failed {
        "error"@
    } else {
        "done"@
    }
}

pub open spec fn failure_view(failure: Option<AppError>) -> Option<AppErrorView> {
    match failure {
        Some(failure) => Some(failure@),
        None => None,
    }
}

impl Run {
    /// What the caller who submitted the clip is told: `error` when the run failed, `done`
    /// otherwise.
    pub fn status(&self) -> (status: &'static str)
        ensures
            status@ == status_of(self@.stage),
    {
        match self.stage {
            Stage::Failed => "error",
            _ => "done",
        }
    }

    /// Starts a run for `session` under a fresh turn identifier and publishes its first
    /// event to the session's channel.
    pub fn begin_on(registry: &mut Registry, session: &str) -> (next: (Run, Action))
        requires
            old(registry).wf(),
            old(registry).count(session@) < u64::MAX,
        ensures
            final(registry).wf(),
            next.0@ == begun(session@, next.0@.turn_id).run,
            next.1@ == begun(session@, next.0@.turn_id).action,
            final(registry).logs() == published_all(
                old(registry).logs(),
                session@,
                begun(session@, next.0@.turn_id).events,
            ),
    {
        let (run, step) = Run::begin(session);
        registry.publish_all(session, &step.events);
        (run, step.action)
    }

    /// Takes one step on `outcome` and publishes the step's events, in order, to the
    /// channel of the run's session. What is handed back is the run after the step, the
    /// work to do next, and the failure that ended the run, if one did.
    pub fn advance_on(self, registry: &mut Registry, outcome: Outcome) -> (next: (
        Run,
        Action,
        Option<AppError>,
    ))
        requires
            old(registry).wf(),
            old(registry).count(self@.session) + MAX_STEP_EVENTS <= u64::MAX,
        ensures
            final(registry).wf(),
            exists|oracle: Oracle|
                {
                    let step = #[trigger] transition(self@, outcome@, oracle);
                    &&& next.0@ == step.run
                    &&& next.1@ == step.action
                    &&& failure_view(next.2) == step.failure
                    &&& final(registry).logs() == published_all(
                        old(registry).logs(),
                        self@.session,
                        step.events,
                    )
                },
    {
        let ghost before = self@;
        let ghost told = outcome@;
        let session = self.session.clone();
        let (run, step) = self.advance(outcome);
        proof {
            let oracle = choose|oracle: Oracle|
                step_taken(run, step) == transition(before, told, oracle);
            lemma_step_is_short(before, told, oracle);
        }
        registry.publish_all(session.as_str(), &step.events);
        (run, step.action, step.failure)
    }
}

} // verus!
