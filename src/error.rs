use vstd::prelude::*;

use vstd::string::*;

use crate::common::{game_name, Game};
use crate::text::{decimal, i32_to_string};

verus! {

/// Every failure the library reports. All of them end the current run.
#[derive(Debug, Clone, PartialEq, Eq)]
pub enum ApplicationError {
    FileNotFound(String),
    UnknownOpcode(i32),
    UnknownOpcodeName(String),
    ArgumentParseError(String, String),
    UnsupportedGame(Game),
    InvalidSubtitleFile,
    WriteFileFailed,
    NoInputFiles,
    InvalidTimestamp(String),
    InvalidDifficultyString(String),
    TruncatedInput,
    IOError(String),
    Utf8ParseError(String),
}

pub type ApplicationResult<T = ()> = Result<T, ApplicationError>;

/// An error as a value, with its texts as character sequences.
pub ghost enum ErrorView {
    FileNotFound(Seq<char>),
    UnknownOpcode(i32),
    UnknownOpcodeName(Seq<char>),
    ArgumentParseError(Seq<char>, Seq<char>),
    UnsupportedGame(Game),
    InvalidSubtitleFile,
    WriteFileFailed,
    NoInputFiles,
    InvalidTimestamp(Seq<char>),
    InvalidDifficultyString(Seq<char>),
    TruncatedInput,
    IOError(Seq<char>),
    Utf8ParseError(Seq<char>),
}

impl View for ApplicationError {
    type V = ErrorView;

    open spec fn view(&self) -> ErrorView {
        match self {
            ApplicationError::FileNotFound(s) => ErrorView::FileNotFound(s@),
            ApplicationError::UnknownOpcode(i) => ErrorView::UnknownOpcode(*i),
            ApplicationError::UnknownOpcodeName(s) => ErrorView::UnknownOpcodeName(s@),
            ApplicationError::ArgumentParseError(a, b) => ErrorView::ArgumentParseError(a@, b@),
            ApplicationError::UnsupportedGame(g) => ErrorView::UnsupportedGame(*g),
            ApplicationError::InvalidSubtitleFile => ErrorView::InvalidSubtitleFile,
            ApplicationError::WriteFileFailed => ErrorView::WriteFileFailed,
            ApplicationError::NoInputFiles => ErrorView::NoInputFiles,
            ApplicationError::InvalidTimestamp(s) => ErrorView::InvalidTimestamp(s@),
            ApplicationError::InvalidDifficultyString(s) => ErrorView::InvalidDifficultyString(s@),
            ApplicationError::TruncatedInput => ErrorView::TruncatedInput,
            ApplicationError::IOError(s) => ErrorView::IOError(s@),
            ApplicationError::Utf8ParseError(s) => ErrorView::Utf8ParseError(s@),
        }
    }
}

/// A result with its error seen as a value.
pub open spec fn result_view<T>(r: Result<T, ApplicationError>) -> Result<T, ErrorView> {
    match r {
        Ok(v) => Ok(v),
        Err(e) => Err(e@),
    }
}

/// The message that describes an error to a person.
pub open spec fn error_text(e: ErrorView) -> Seq<char> {
    match e {
        ErrorView::FileNotFound(s) => "File not found: "@ + s,
        ErrorView::UnknownOpcode(i) => "Unknown opcode: "@ + decimal(i as int),
        ErrorView::UnknownOpcodeName(s) => "Unknown opcode name: "@ + s,
        ErrorView::ArgumentParseError(op, arg) => "Invalid command argument for "@ + op + ": "@ + arg,
        ErrorView::UnsupportedGame(g) => "Unsupported game: "@ + game_name(g),
        ErrorView::InvalidSubtitleFile => "Invalid subtitle file"@,
        ErrorView::WriteFileFailed => "Failed to write merged DSC to file (maybe missing permissions?)"@,
        ErrorView::NoInputFiles => "You have not specified any input files."@,
        ErrorView::InvalidTimestamp(s) => "Invalid timestamp: "@ + s,
        ErrorView::InvalidDifficultyString(s) => "Invalid difficulty: "@ + s,
        ErrorView::TruncatedInput => "IO error: failed to fill whole buffer"@,
        ErrorView::IOError(s) => "IO error: "@ + s,
        ErrorView::Utf8ParseError(s) => "Parse error: "@ + s,
    }
}

impl ApplicationError {
    /// The message that describes this error to a person.
    pub fn to_string(&self) -> (r: String)
        ensures
            r@ == error_text(self@),
    {
        match self {
            ApplicationError::FileNotFound(s) => String::from_str("File not found: ").concat(s.as_str()),
            ApplicationError::UnknownOpcode(i) => {
                let digits = i32_to_string(*i);
                String::from_str("Unknown opcode: ").concat(digits.as_str())
            },
            ApplicationError::UnknownOpcodeName(s) => String::from_str("Unknown opcode name: ").concat(s.as_str()),
            ApplicationError::ArgumentParseError(op, arg) => String::from_str(
                "Invalid command argument for ",
            ).concat(op.as_str()).concat(": ").concat(arg.as_str()),
            ApplicationError::UnsupportedGame(g) => {
                let name = g.to_string();
                String::from_str("Unsupported game: ").concat(name.as_str())
            },
            ApplicationError::InvalidSubtitleFile => String::from_str("Invalid subtitle file"),
            ApplicationError::WriteFileFailed => String::from_str(
                "Failed to write merged DSC to file (maybe missing permissions?)",
            ),
            ApplicationError::NoInputFiles => String::from_str("You have not specified any input files."),
            ApplicationError::InvalidTimestamp(s) => String::from_str("Invalid timestamp: ").concat(s.as_str()),
            ApplicationError::InvalidDifficultyString(s) => String::from_str("Invalid difficulty: ").concat(
                s.as_str(),
            ),
            ApplicationError::TruncatedInput => String::from_str("IO error: failed to fill whole buffer"),
            ApplicationError::IOError(s) => String::from_str("IO error: ").concat(s.as_str()),
            ApplicationError::Utf8ParseError(s) => String::from_str("Parse error: ").concat(s.as_str()),
        }
    }
}

} // verus!
