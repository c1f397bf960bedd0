//! The command line, as far as it decides anything.

use vstd::prelude::*;
use vstd::string::StringExecFns;
use crate::util::texts;
use crate::util::unique;
use crate::util::without_repeats;

verus! {

/// How much is logged.
#[derive(Clone, Copy, Debug, PartialEq, Eq, Structural)]
pub enum Verbosity {
    Info,
    Debug,
    Trace,
}

/// Why a command line was refused.
#[derive(Clone, Copy, Debug, PartialEq, Eq, Structural)]
pub enum CliError {
    /// The verbosity flag was given more than twice.
    InvalidVerbosity,
    /// A tool is described, and more than one name is given for it.
    SeveralNames,
}

impl CliError {
    /// The error as a message for the user.
    pub fn message(&self) -> (r: String)
        ensures
            r@ == match *self {
                CliError::InvalidVerbosity => "Invalid verbosity level"@,
                CliError::SeveralNames =>
                    "A single tool name must be specified when project is specified"@,
            },
    {
        match self {
            CliError::InvalidVerbosity => String::from_str("Invalid verbosity level"),
            CliError::SeveralNames => String::from_str(
                "A single tool name must be specified when project is specified",
            ),
        }
    }
}

/// The verbosity that a number of verbosity flags asks for.
pub fn verbosity(count: u8) -> (r: Result<Verbosity, CliError>)
    ensures
        r == match count {
            0 => Ok::<Verbosity, CliError>(Verbosity::Info),
            1 => Ok::<Verbosity, CliError>(Verbosity::Debug),
            2 => Ok::<Verbosity, CliError>(Verbosity::Trace),
            _ => Err::<Verbosity, CliError>(CliError::InvalidVerbosity),
        },
{
    if count == 0 {
        Ok(Verbosity::Info)
    } else if count == 1 {
        Ok(Verbosity::Debug)
    } else if count == 2 {
        Ok(Verbosity::Trace)
    } else {
        Err(CliError::InvalidVerbosity)
    }
}

/// The tool names of a command line: as they were given, each only once.
pub fn get_names(names: &Vec<String>) -> (r: Vec<String>)
    ensures
        texts(r@) == without_repeats(texts(names@)),
{
    unique(names)
}

/// The name under which a described tool is installed, if one was given:
/// there may be at most one.
pub fn described_name(names: &Vec<String>) -> (r: Result<Option<String>, CliError>)
    ensures
        names.len() == 0 ==> r == Ok::<Option<String>, CliError>(None),
        names.len() == 1 ==> (r matches Ok(Some(name)) && name == names@[0]),
        names.len() > 1 ==> r == Err::<Option<String>, CliError>(CliError::SeveralNames),
{
    if names.len() == 0 {
        Ok(None)
    } else if names.len() == 1 {
        Ok(Some(names[0].clone()))
    } else {
        Err(CliError::SeveralNames)
    }
}

} // verus!
