use vstd::prelude::*;
use vstd::string::*;

verus! {

/// The errors with which nur answers a call.
///
/// Errors of the nushell engine are held by the text that they display:
/// `ShellError` holds the shell error's message, `ParseErrors` the messages
/// of the parse errors it gathers.
#[derive(Clone, Debug)]
pub enum NurError {
    InitError(String),
    IoError(String),
    ShellError(String),
    ParseErrors(Vec<String>),
    InvalidTaskName(String),
    TaskNotFound(String),
    /// No task file was found; holds the task file name that was looked for.
    NurfileNotFound(String),
    EnteredShellError(),
    InvalidNurCall(String, String),
    /// A dotenv file could not be loaded; holds the file as given and why.
    DotenvFileError(String, String),
    DotenvParseError(String),
    /// The `--nurfile` option was given a value that is not a string.
    InvalidNurfile(),
}

/// The text that an error displays.
pub open spec fn error_message(e: NurError) -> Seq<char> {
    match e {
        NurError::InitError(s) => "Init nu error "@ + s@,
        NurError::IoError(s) => "IO Error "@ + s@,
        NurError::ShellError(s) => "Shell Error "@ + s@,
        NurError::ParseErrors(_) => "Parse Errors"@,
        NurError::InvalidTaskName(s) => "Invalid task name '"@ + s@ + "'"@,
        NurError::TaskNotFound(s) => "Could not find the task for call '"@ + s@ + "'"@,
        NurError::NurfileNotFound(_) => "Could not find nurfile in path and parents"@,
        NurError::EnteredShellError() => "Entered shell did raise an error"@,
        NurError::InvalidNurCall(a, b) => "You cannot use "@ + a@ + " and "@ + b@ + " together"@,
        NurError::DotenvFileError(s, _) => "Could not load dotenv file or not a file at "@ + s@,
        NurError::DotenvParseError(s) => "Could not parse dotenv file: "@ + s@,
        NurError::InvalidNurfile() => "Invalid nurfile name, it must be a string"@,
    }
}

impl NurError {
    /// The text that this error displays.
    pub fn message(&self) -> (r: String)
        ensures
            r@ == error_message(*self),
    {
        match self {
            NurError::InitError(s) => String::from_str("Init nu error ").concat(s.as_str()),
            NurError::IoError(s) => String::from_str("IO Error ").concat(s.as_str()),
            NurError::ShellError(s) => String::from_str("Shell Error ").concat(s.as_str()),
            NurError::ParseErrors(_) => String::from_str("Parse Errors"),
            NurError::InvalidTaskName(s) => String::from_str("Invalid task name '").concat(
                s.as_str(),
            ).concat("'"),
            NurError::TaskNotFound(s) => String::from_str(
                "Could not find the task for call '",
            ).concat(s.as_str()).concat("'"),
            NurError::NurfileNotFound(_) => String::from_str(
                "Could not find nurfile in path and parents",
            ),
            NurError::EnteredShellError() => String::from_str("Entered shell did raise an error"),
            NurError::InvalidNurCall(a, b) => String::from_str("You cannot use ").concat(
                a.as_str(),
            ).concat(" and ").concat(b.as_str()).concat(" together"),
            NurError::DotenvFileError(s, _) => String::from_str(
                "Could not load dotenv file or not a file at ",
            ).concat(s.as_str()),
            NurError::DotenvParseError(s) => String::from_str("Could not parse dotenv file: ").concat(
                s.as_str(),
            ),
            NurError::InvalidNurfile() => String::from_str(
                "Invalid nurfile name, it must be a string",
            ),
        }
    }
}

} // verus!
