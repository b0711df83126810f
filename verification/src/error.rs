use vstd::prelude::*;

verus! {

/// What an error was about, and what went wrong.
#[derive(Debug)]
pub struct ErrorInfo {
    pub string: String,
    pub err: String,
}

/// The errors of the project manager.
#[derive(Debug)]
pub enum Error {
    Create(ErrorInfo),
    Read(ErrorInfo),
    Parse(ErrorInfo),
    Write(ErrorInfo),
    Find(ErrorInfo),
    Remove(ErrorInfo),
    Fetch(ErrorInfo),
    Clone(ErrorInfo),
    ReadTemplatesDir(String),
    ReadTemplate(String, String),
    ParseTemplate(String, String),
    RunCommand(String, String),
    Other(String),
}

} // verus!
