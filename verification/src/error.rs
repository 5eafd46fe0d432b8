//! The failure kinds of the tool. Every failing operation surfaces one of
//! these; none is retried.

use vstd::prelude::*;

verus! {

/// Everything that can go wrong in one invocation of the tool.
#[derive(Debug, Clone, Copy, PartialEq, Eq, Structural)]
pub enum XnError {
    /// The configuration file is absent.
    ConfigNotFound,
    /// The configuration file exists but cannot be decoded into the four
    /// required fields.
    ConfigParseError,
    /// The configuration file could not be written.
    ConfigWriteError,
    /// No source files were found for an operation that needs at least one.
    EmptyInput,
    /// A delegated executable could not be started at all.
    SpawnError,
    /// A delegated executable ran and exited with the given non-zero code.
    NonZeroExit(i32),
    /// A delegated executable was terminated abnormally, without an exit
    /// code (for example by a signal).
    AbnormalTermination,
    /// A generic file-system failure during scaffolding or file reads.
    IoError,
}

/// The description that each failure is reported with.
pub open spec fn describe_text(e: XnError) -> Seq<char> {
    match e {
        XnError::ConfigNotFound => "config file not found"@,
        XnError::ConfigParseError => "config file could not be parsed"@,
        XnError::ConfigWriteError => "config file could not be written"@,
        XnError::EmptyInput => "no source files found"@,
        XnError::SpawnError => "external tool could not be started"@,
        XnError::NonZeroExit(_) => "external tool exited with failure"@,
        XnError::AbnormalTermination => "external tool was terminated abnormally"@,
        XnError::IoError => "file system operation failed"@,
    }
}

impl XnError {
    /// A short description of the failure, for the front end to print.
    pub fn describe(&self) -> (r: String)
        ensures
            r@ == describe_text(*self),
            r@.len() > 0,
    {
        let r = match self {
            XnError::ConfigNotFound => "config file not found",
            XnError::ConfigParseError => "config file could not be parsed",
            XnError::ConfigWriteError => "config file could not be written",
            XnError::EmptyInput => "no source files found",
            XnError::SpawnError => "external tool could not be started",
            XnError::NonZeroExit(_) => "external tool exited with failure",
            XnError::AbnormalTermination => "external tool was terminated abnormally",
            XnError::IoError => "file system operation failed",
        };
        proof {
            reveal_strlit("config file not found");
            reveal_strlit("config file could not be parsed");
            reveal_strlit("config file could not be written");
            reveal_strlit("no source files found");
            reveal_strlit("external tool could not be started");
            reveal_strlit("external tool exited with failure");
            reveal_strlit("external tool was terminated abnormally");
            reveal_strlit("file system operation failed");
        }
        String::from_str(r)
    }
}

} // verus!
