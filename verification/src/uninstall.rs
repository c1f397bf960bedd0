//! Uninstalling: which tools may be removed, and what is said of it.

use vstd::prelude::*;
use vstd::string::StringExecFns;
use crate::util::join;
use crate::util::joined;
use crate::util::texts;
use crate::util::unknown_among;
use crate::util::unknown_names;

verus! {

/// Why nothing was uninstalled.
#[derive(Debug, PartialEq, Eq)]
pub enum UninstallError {
    /// Tools were named that the configuration does not have.
    UnknownTools { names: Vec<String> },
}

impl UninstallError {
    /// The error as a message for the user: it names every unknown tool.
    pub fn message(&self) -> (r: String)
        ensures
            r@ == match *self {
                UninstallError::UnknownTools { names } =>
                    "The following tools aren't specified in the configuration file: "@ + joined(
                        texts(names@),
                        ", "@,
                    ),
            },
    {
        match self {
            UninstallError::UnknownTools { names } => {
                let mut r = String::from_str(
                    "The following tools aren't specified in the configuration file: ",
                );
                r.append(join(names, ", ").as_str());
                r
            },
        }
    }
}

/// Checks that every tool that is to be uninstalled is configured. Nothing
/// is removed if one is not.
pub fn check_names(configured: &Vec<String>, names: &Vec<String>) -> (r: Result<
    (),
    UninstallError,
>)
    ensures
        match r {
            Ok(_) => unknown_among(texts(configured@), texts(names@)).len() == 0,
            Err(UninstallError::UnknownTools { names: unknown }) => texts(unknown@)
                == unknown_among(texts(configured@), texts(names@)) && unknown.len() > 0,
        },
{
    let unknown = unknown_names(configured, names);
    assert(texts(unknown@).len() == unknown.len());
    if unknown.len() == 0 {
        Ok(())
    } else {
        Err(UninstallError::UnknownTools { names: unknown })
    }
}

/// What is said of an uninstalled tool: with its path where a file was
/// removed, without it where there was none.
pub fn uninstalled_message(name: &str, path: &str, deleted: bool) -> (r: String)
    ensures
        r@ == if deleted {
            name@ + " ("@ + path@ + ") is uninstalled."@
        } else {
            name@ + " is uninstalled."@
        },
{
    let mut r = String::from_str(name);
    if deleted {
        r.append(" (");
        r.append(path);
        r.append(") is uninstalled.");
    } else {
        r.append(" is uninstalled.");
    }
    r
}

} // verus!
