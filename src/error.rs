use vstd::prelude::*;

verus! {

/// The protocol-level errors of the engine. A command's own failure is not one
/// of these: it is an ordinary `Output` with a failed `Result`.
#[derive(PartialEq, Eq, Structural, Debug, Clone, Copy)]
pub enum Error {
    /// The instruction holds no token, or its first token is a flag.
    MissingCaller,
    /// A sub-argument was given for a flag that was never opened.
    SubArgWithoutFlag,
    /// The name is already registered, or it is the reserved help token.
    DuplicateName,
    /// No command is registered under the name.
    CommandNotFound,
    /// An engine is already running.
    AlreadyRunning,
    /// The engine has stopped.
    NotRunning,
}


/// The name of an error, as text.
pub open spec fn error_text(e: Error) -> Seq<char> {
    match e {
        Error::MissingCaller => "MissingCaller"@,
        Error::SubArgWithoutFlag => "SubArgWithoutFlag"@,
        Error::DuplicateName => "DuplicateName"@,
        Error::CommandNotFound => "CommandNotFound"@,
        Error::AlreadyRunning => "AlreadyRunning"@,
        Error::NotRunning => "NotRunning"@,
    }
}

impl Error {
    /// The name of the error, as text.
    pub fn to_string(&self) -> (r: String)
        ensures
            r@ == error_text(*self),
    {
        match self {
            Error::MissingCaller => String::from_str("MissingCaller"),
            Error::SubArgWithoutFlag => String::from_str("SubArgWithoutFlag"),
            Error::DuplicateName => String::from_str("DuplicateName"),
            Error::CommandNotFound => String::from_str("CommandNotFound"),
            Error::AlreadyRunning => String::from_str("AlreadyRunning"),
            Error::NotRunning => String::from_str("NotRunning"),
        }
    }
}

} // verus!
