//! The Screen adapter: parsing listings, building commands, judging capabilities.
//!
//! Nothing here touches a terminal or starts a process: the functions take what
//! a command printed and say what it means, or say which command to run.

use vstd::prelude::*;

pub mod adapter_laws;
pub mod caps;
pub mod cmd;
pub mod laws;
pub mod line_laws;
pub mod parse;
pub mod preview;
pub mod preview_laws;
pub mod probe;


verus! {

/// Errors of the adapter layer. The caller decides by variant whether to show
/// less or to fail.
#[derive(Debug)]
pub enum Error {
    NotFound,
    NotExecutable { path: String },
    Spawn { program: String, source: String },
    CommandFailed { command: String, code: i32, stderr: String },
    UnrecognizedOutput(String),
    PreviewUnavailable(String),
    Temp(String),
}

/// The model of an [`Error`].
pub enum ErrorView {
    NotFound,
    NotExecutable { path: Seq<char> },
    Spawn { program: Seq<char>, source: Seq<char> },
    CommandFailed { command: Seq<char>, code: i32, stderr: Seq<char> },
    UnrecognizedOutput(Seq<char>),
    PreviewUnavailable(Seq<char>),
    Temp(Seq<char>),
}

impl View for Error {
    type V = ErrorView;

    open spec fn view(&self) -> ErrorView {
        match *self {
            Error::NotFound => ErrorView::NotFound,
            Error::NotExecutable { path } => ErrorView::NotExecutable { path: path@ },
            Error::Spawn { program, source } => ErrorView::Spawn {
                program: program@,
                source: source@,
            },
            Error::CommandFailed { command, code, stderr } => ErrorView::CommandFailed {
                command: command@,
                code,
                stderr: stderr@,
            },
            Error::UnrecognizedOutput(detail) => ErrorView::UnrecognizedOutput(detail@),
            Error::PreviewUnavailable(detail) => ErrorView::PreviewUnavailable(detail@),
            Error::Temp(detail) => ErrorView::Temp(detail@),
        }
    }
}

/// The text that an error is shown as.
pub open spec fn error_text(e: ErrorView) -> Seq<char> {
    match e {
        ErrorView::NotFound =>
            "screen executable not found (checked $STUI_SCREEN and every PATH entry)"@,
        ErrorView::NotExecutable { path } => "`"@ + path + "` is not an executable file"@,
        ErrorView::Spawn { program, source } => "failed to spawn `"@ + program + "`: "@ + source,
        ErrorView::CommandFailed { command, code, stderr } => "`"@ + command
            + "` exited with code "@ + crate::text::signed_decimal_of(code as int) + ": "@ + stderr,
        ErrorView::UnrecognizedOutput(detail) => "unrecognized `screen -ls` output: "@ + detail,
        ErrorView::PreviewUnavailable(detail) => "preview unavailable: "@ + detail,
        ErrorView::Temp(detail) => "temporary file error: "@ + detail,
    }
}

impl Error {
    /// The message shown to the user.
    pub fn message(&self) -> (r: String)
        ensures
            r@ == error_text(self@),
    {
        let mut out: String = String::new();
        match self {
            Error::NotFound => {
                out.append(
                    "screen executable not found (checked $STUI_SCREEN and every PATH entry)",
                );
            },
            Error::NotExecutable { path } => {
                out.append("`");
                out.append(path.as_str());
                out.append("` is not an executable file");
            },
            Error::Spawn { program, source } => {
                out.append("failed to spawn `");
                out.append(program.as_str());
                out.append("`: ");
                out.append(source.as_str());
            },
            Error::CommandFailed { command, code, stderr } => {
                out.append("`");
                out.append(command.as_str());
                out.append("` exited with code ");
                out.append(crate::text::signed_decimal(*code as i64).as_str());
                out.append(": ");
                out.append(stderr.as_str());
            },
            Error::UnrecognizedOutput(detail) => {
                out.append("unrecognized `screen -ls` output: ");
                out.append(detail.as_str());
            },
            Error::PreviewUnavailable(detail) => {
                out.append("preview unavailable: ");
                out.append(detail.as_str());
            },
            Error::Temp(detail) => {
                out.append("temporary file error: ");
                out.append(detail.as_str());
            },
        }
        assert(out@ =~= error_text(self@));
        out
    }
}

} // verus!
