//! How the editor is told to start the tool.

use crate::error::{message_of, ResolveError};
use crate::model::result_view;
use vstd::prelude::*;
use vstd::string::*;

verus! {

/// A command for the editor to run.
#[derive(Debug, PartialEq, Eq)]
pub struct LaunchCommand {
    /// The executable to start.
    pub executable_path: String,
    /// The arguments to hand to it.
    pub args: Vec<String>,
    /// The variables to add to its environment, each with its value.
    pub environment: Vec<(String, String)>,
}

/// The command that starts the tool, from the outcome of its resolution.
/// The executable is started without arguments and with nothing added to
/// its environment. Where the resolution failed there is no command, but
/// the text of the failure, which ends with `remediation`.
pub fn language_server_command(outcome: Result<String, ResolveError>, remediation: &str) -> (command:
    Result<LaunchCommand, String>)
    ensures
        match result_view(outcome) {
            Ok(path) => command is Ok && command->Ok_0.executable_path@ == path
                && command->Ok_0.args@.len() == 0 && command->Ok_0.environment@.len() == 0,
            Err(error) => command is Err && command->Err_0@ == message_of(error, remediation@),
        },
{
    match outcome {
        Ok(path) => Ok(
            LaunchCommand { executable_path: path, args: Vec::new(), environment: Vec::new() },
        ),
        Err(error) => Err(error.message(remediation)),
    }
}

} // verus!
