use vstd::prelude::*;
use crate::components::Enhancer;

verus! {

/// The hidden command with which an old executable hands an update over to
/// the new one: where to install it, and what is being replaced.
#[derive(Clone, Debug, PartialEq, Eq)]
pub struct CommandExecuteUpdate {
    pub target_file: String,
    pub source_version: String,
    pub source_hash: String,
    pub console_invoked: bool,
}

/// The commands of the launcher.
#[derive(Clone, Debug, PartialEq, Eq)]
pub enum AppCommand {
    /// Map the driver, then launch the overlay.
    QuickStart,
    /// Download and map the driver.
    MapDriver,
    /// Download and launch an enhancer.
    Launch { enhancer: Enhancer },
    /// Show the version.
    Version,
    /// Complete an update; started by the executable being replaced.
    ExecuteUpdate(CommandExecuteUpdate),
}

/// The command line: verbose logging, and the command if one was given.
#[derive(Clone, Debug, PartialEq, Eq)]
pub struct AppArgs {
    pub verbose: bool,
    pub command: Option<AppCommand>,
}

/// The name of the hidden command that completes an update.
pub const EXECUTE_UPDATE: &'static str = "execute-update";

pub open spec fn spec_bool_text(b: bool) -> Seq<char> {
    if b { "true"@ } else { "false"@ }
}

/// The arguments that start the new executable on the hidden command.
pub open spec fn spec_handoff_args(h: CommandExecuteUpdate) -> Seq<Seq<char>> {
    seq![
        EXECUTE_UPDATE@,
        "--target-file"@,
        h.target_file@,
        "--source-version"@,
        h.source_version@,
        "--source-hash"@,
        h.source_hash@,
        "--console-invoked"@,
        spec_bool_text(h.console_invoked),
    ]
}

impl CommandExecuteUpdate {
    /// The arguments that carry this handoff to the new process.
    pub fn to_args(&self) -> (r: Vec<String>)
        ensures
            r@.len() == 9,
            forall|i: int| 0 <= i < 9 ==> (#[trigger] r@[i])@ == spec_handoff_args(*self)[i],
    {
        let mut r: Vec<String> = Vec::new();
        r.push(String::from_str(EXECUTE_UPDATE));
        r.push(String::from_str("--target-file"));
        r.push(self.target_file.clone());
        r.push(String::from_str("--source-version"));
        r.push(self.source_version.clone());
        r.push(String::from_str("--source-hash"));
        r.push(self.source_hash.clone());
        r.push(String::from_str("--console-invoked"));
        if self.console_invoked {
            r.push(String::from_str("true"));
        } else {
            r.push(String::from_str("false"));
        }
        r
    }
}

/// Whether a command starts with a check for a newer launcher: every command
/// but the version display and the completion of an update.
pub open spec fn spec_checks_for_updates(command: Option<AppCommand>) -> bool {
    match command {
        Some(AppCommand::ExecuteUpdate(_)) => false,
        Some(AppCommand::Version) => false,
        _ => true,
    }
}

/// Whether the launcher looks for an update before running `command`.
pub fn checks_for_updates(command: &Option<AppCommand>) -> (r: bool)
    ensures
        r == spec_checks_for_updates(*command),
{
    match command {
        Some(AppCommand::ExecuteUpdate(_)) => false,
        Some(AppCommand::Version) => false,
        _ => true,
    }
}

} // verus!
