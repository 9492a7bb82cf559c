//! The tools a completion may ask for: resolving them by name and reading their arguments.

use crate::error::{AppError, AppErrorView, ErrorKind};
use crate::events::AssistantStep;
use crate::trusted::{base64_decoded, bundled_theme, decode_base64, json_string_member, markdown_html,
    read_json_string_member, render_markdown};
use vstd::prelude::*;
use vstd::string::StringExecFns;

verus! {

/// The actions a completion may ask for instead of answering in plain text.
#[derive(Clone, Copy, Debug, PartialEq, Eq, Structural)]
pub enum AssistantTool {
    DrawImage,
    WriteCode,
    Answer,
}

/// The tool that a completion means by `name`, if any.
pub open spec fn tool_named(name: Seq<char>) -> Option<AssistantTool> {
    if name == "draw_image"@ {
        Some(AssistantTool::DrawImage)
    } else if name == "write_code"@ {
        Some(AssistantTool::WriteCode)
    } else if name == "answer"@ {
        Some(AssistantTool::Answer)
    } else {
        None
    }
}

/// The progress step that is announced when a tool starts.
pub open spec fn tool_step(tool: AssistantTool) -> AssistantStep {
    match tool {
        AssistantTool::DrawImage => AssistantStep::DrawImage,
        AssistantTool::WriteCode => AssistantStep::WriteCode,
        AssistantTool::Answer => AssistantStep::ChatCompletion,
    }
}

pub open spec fn unknown_tool() -> AppErrorView {
    AppErrorView { kind: ErrorKind::UnknownTool, message: "no proper tool found at the moment"@ }
}

impl AssistantTool {
    /// Resolves a tool by name; any other name fails with `UnknownTool`.
    pub fn from_name(name: &str) -> (tool: Result<AssistantTool, AppError>)
        ensures
            match tool {
                Ok(found) => tool_named(name@) == Some(found),
                Err(failure) => tool_named(name@) is None && failure@ == unknown_tool(),
            },
    {
        let wanted = String::from_str(name);
        if wanted == String::from_str("draw_image") {
            Ok(AssistantTool::DrawImage)
        } else if wanted == String::from_str("write_code") {
            Ok(AssistantTool::WriteCode)
        } else if wanted == String::from_str("answer") {
            Ok(AssistantTool::Answer)
        } else {
            Err(AppError::new(ErrorKind::UnknownTool, "no proper tool found at the moment"))
        }
    }

    pub fn step(&self) -> (step: AssistantStep)
        ensures
            step == tool_step(*self),
    {
        match self {
            AssistantTool::DrawImage => AssistantStep::DrawImage,
            AssistantTool::WriteCode => AssistantStep::WriteCode,
            AssistantTool::Answer => AssistantStep::ChatCompletion,
        }
    }
}

/// The typed arguments of a tool call. Every tool takes one prompt.
#[derive(Debug)]
pub struct ToolArgs {
    pub prompt: String,
}

/// The prompt that a tool call carries, given what the JSON reader found under `prompt`: a
/// document that is not JSON, or that has no string of that name, is refused.
pub open spec fn arguments_of(member: Result<Option<Seq<char>>, Seq<char>>) -> Result<
    Seq<char>,
    AppErrorView,
> {
    match member {
        Ok(Some(prompt)) => Ok(prompt),
        Ok(None) => Err(
            AppErrorView { kind: ErrorKind::InvalidArguments, message: "missing field `prompt`"@ },
        ),
        Err(message) => Err(AppErrorView { kind: ErrorKind::InvalidArguments, message }),
    }
}

/// The prompt of the argument string `arguments`, or why it has none.
pub open spec fn parsed_arguments(arguments: Seq<char>) -> Result<Seq<char>, AppErrorView> {
    arguments_of(json_string_member(arguments, "prompt"@))
}

pub open spec fn member_view(member: Result<Option<String>, String>) -> Result<
    Option<Seq<char>>,
    Seq<char>,
> {
    match member {
        Ok(Some(found)) => Ok(Some(found@)),
        Ok(None) => Ok(None),
        Err(message) => Err(message@),
    }
}

pub open spec fn arguments_view(arguments: Result<ToolArgs, AppError>) -> Result<
    Seq<char>,
    AppErrorView,
> {
    match arguments {
        Ok(args) => Ok(args.prompt@),
        Err(failure) => Err(failure@),
    }
}

/// Turns what the JSON reader found under `prompt` into typed arguments.
pub fn arguments_from(member: Result<Option<String>, String>) -> (arguments: Result<
    ToolArgs,
    AppError,
>)
    ensures
        arguments_view(arguments) == arguments_of(member_view(member)),
{
    match member {
        Ok(Some(prompt)) => Ok(ToolArgs { prompt }),
        Ok(None) => Err(AppError::new(ErrorKind::InvalidArguments, "missing field `prompt`")),
        Err(message) => Err(AppError { kind: ErrorKind::InvalidArguments, message }),
    }
}

/// Parses the raw argument string of a tool call.
pub fn parse_arguments(arguments: &str) -> (parsed: Result<ToolArgs, AppError>)
    ensures
        arguments_view(parsed) == parsed_arguments(arguments@),
{
    arguments_from(read_json_string_member(arguments, "prompt"))
}

/// The theme in which code is highlighted.
pub open spec fn code_theme() -> Seq<char> {
    "Solarized (dark)"@
}

/// The rich text of a markdown answer.
pub fn md2html(md: &str) -> (html: String)
    ensures
        html@ == markdown_html(md@, code_theme()),
{
    assert(bundled_theme("Solarized (dark)"@));
    render_markdown(md, "Solarized (dark)")
}

/// The bytes of a generated image, given what the base64 decoder made of its text form; a
/// text that does not decode is the image service's fault.
pub open spec fn image_bytes_of(decoded: Result<Seq<u8>, Seq<char>>) -> Result<
    Seq<u8>,
    AppErrorView,
> {
    match decoded {
        Ok(bytes) => Ok(bytes),
        Err(message) => Err(AppErrorView { kind: ErrorKind::UpstreamService, message }),
    }
}

pub open spec fn bytes_view(bytes: Result<Vec<u8>, AppError>) -> Result<Seq<u8>, AppErrorView> {
    match bytes {
        Ok(data) => Ok(data@),
        Err(failure) => Err(failure@),
    }
}

pub open spec fn decoded_view(decoded: Result<Vec<u8>, String>) -> Result<Seq<u8>, Seq<char>> {
    match decoded {
        Ok(data) => Ok(data@),
        Err(message) => Err(message@),
    }
}

/// Turns what the base64 decoder returned into image bytes or a failure of the run.
pub fn image_bytes_from(decoded: Result<Vec<u8>, String>) -> (bytes: Result<Vec<u8>, AppError>)
    ensures
        bytes_view(bytes) == image_bytes_of(decoded_view(decoded)),
{
    match decoded {
        Ok(data) => Ok(data),
        Err(message) => Err(AppError { kind: ErrorKind::UpstreamService, message }),
    }
}

/// Decodes the text form in which the image service hands over an image.
pub fn decode_image(b64_json: &str) -> (bytes: Result<Vec<u8>, AppError>)
    ensures
        bytes_view(bytes) == image_bytes_of(base64_decoded(b64_json@)),
{
    image_bytes_from(decode_base64(b64_json))
}

} // verus!
