use vstd::prelude::*;
use crate::api::{download_url, spec_download_url, Version};
use crate::cli::CommandExecuteUpdate;
use crate::text::{hyphenated, uuid_text};

verus! {

/// A newer version of the launcher itself.
#[derive(Clone, Debug, PartialEq, Eq)]
pub struct Update(pub Version);

impl Update {
    /// The address of the new executable.
    pub fn download_url(&self) -> (r: String)
        ensures
            r@ == spec_download_url(hyphenated(self.0.artifact), self.0.track, self.0.id),
    {
        let artifact = uuid_text(self.0.artifact);
        download_url(artifact.as_str(), &self.0)
    }
}

/// The portal slug of the launcher itself.
pub const LOADER_SLUG: &'static str = "valthrun-loader";

/// The track from which the launcher updates itself.
pub const LOADER_TRACK: &'static str = "win32";

/// An update is due when the build's embedded hash is not exactly the
/// latest version's hash.
pub fn check_update(embedded_hash: &String, latest: Version) -> (r: Option<Update>)
    ensures
        r is None <==> embedded_hash@ == latest.version_hash@,
        r is Some ==> r->Some_0 == Update(latest),
{
    if *embedded_hash == latest.version_hash {
        None
    } else {
        Some(Update(latest))
    }
}

/// Where a self-update stands.
#[derive(Clone, Copy, Debug, PartialEq, Eq, Structural)]
pub enum UpdatePhase {
    /// Nothing has been done yet.
    Idle,
    /// The latest version is being resolved.
    Resolving,
    /// A newer version exists; the user is asked whether to install it.
    Stale,
    /// The new executable is being downloaded.
    Downloading,
    /// The new executable is being started with the handoff.
    Handoff,
    /// The new executable runs in this console; its exit code is awaited.
    Waiting,
    /// The self-update is over.
    Finished,
}

/// What the caller reports back after carrying out an action.
#[derive(Clone, Debug, PartialEq, Eq)]
pub enum UpdateEvent {
    /// Start looking for an update.
    Begin,
    /// The latest version of the launcher.
    Resolved(Version),
    /// The latest version could not be resolved.
    ResolveFailed,
    /// The user's answer to whether the update is to be installed.
    Consent(bool),
    /// The new executable was saved to this temporary file.
    Downloaded(String),
    /// The download failed.
    DownloadFailed(String),
    /// The new executable was started.
    Spawned,
    /// The new executable could not be started.
    SpawnFailed(String),
    /// The new executable exited with this code.
    ChildExited(i32),
}

/// What the caller is to do next.
#[derive(Debug, PartialEq, Eq)]
pub enum UpdateAction {
    /// Resolve the latest version of the launcher.
    Resolve,
    /// Ask the user whether to install the pending update.
    AskInstall,
    /// Download the pending update to a temporary file.
    Download,
    /// Start `program` with the handoff's arguments.
    Spawn { program: String },
    /// Wait for the started executable to exit.
    WaitForChild,
    /// End this process with the given code.
    Exit(i32),
    /// Go on with the requested command: no update is installed.
    Continue,
    /// The update failed with this message.
    Fail(String),
    /// Nothing more to do: the event did not fit the phase.
    Halt,
}

/// A self-update of the running launcher.
#[derive(Debug, PartialEq, Eq)]
pub struct UpdateSession {
    pub phase: UpdatePhase,
    /// The running executable's path and build identity, and whether it was
    /// started from a console.
    pub handoff: CommandExecuteUpdate,
    /// The newer version found, once one is.
    pub pending: Option<Update>,
}

/// The transition table of a self-update.
pub open spec fn update_step(s: UpdateSession, event: UpdateEvent) -> (UpdateSession, UpdateAction) {
    let finished = UpdateSession { phase: UpdatePhase::Finished, ..s };
    match (s.phase, event) {
        (UpdatePhase::Idle, UpdateEvent::Begin) => (UpdateSession { phase: UpdatePhase::Resolving, ..s }, UpdateAction::Resolve),
        (UpdatePhase::Resolving, UpdateEvent::ResolveFailed) => (finished, UpdateAction::Continue),
        (UpdatePhase::Resolving, UpdateEvent::Resolved(latest)) =>
            if latest.version_hash@ == s.handoff.source_hash@ {
                (finished, UpdateAction::Continue)
            } else {
                (UpdateSession { phase: UpdatePhase::Stale, pending: Some(Update(latest)), ..s }, UpdateAction::AskInstall)
            },
        (UpdatePhase::Stale, UpdateEvent::Consent(yes)) =>
            if yes {
                (UpdateSession { phase: UpdatePhase::Downloading, ..s }, UpdateAction::Download)
            } else {
                (finished, UpdateAction::Continue)
            },
        (UpdatePhase::Downloading, UpdateEvent::Downloaded(program)) =>
            (UpdateSession { phase: UpdatePhase::Handoff, ..s }, UpdateAction::Spawn { program }),
        (UpdatePhase::Downloading, UpdateEvent::DownloadFailed(message)) => (finished, UpdateAction::Fail(message)),
        (UpdatePhase::Handoff, UpdateEvent::Spawned) =>
            if s.handoff.console_invoked {
                (UpdateSession { phase: UpdatePhase::Waiting, ..s }, UpdateAction::WaitForChild)
            } else {
                (finished, UpdateAction::Exit(0))
            },
        (UpdatePhase::Handoff, UpdateEvent::SpawnFailed(message)) => (finished, UpdateAction::Fail(message)),
        (UpdatePhase::Waiting, UpdateEvent::ChildExited(code)) => (finished, UpdateAction::Exit(code)),
        _ => (finished, UpdateAction::Halt),
    }
}

impl UpdateSession {
    /// A self-update of the executable that `handoff` describes.
    pub fn new(handoff: CommandExecuteUpdate) -> (r: UpdateSession)
        ensures
            r == (UpdateSession { phase: UpdatePhase::Idle, handoff, pending: None }),
    {
        UpdateSession { phase: UpdatePhase::Idle, handoff, pending: None }
    }

    /// Takes the report of the last action and returns the next one.
    pub fn step(&mut self, event: UpdateEvent) -> (r: UpdateAction)
        ensures
            (*final(self), r) == update_step(*old(self), event),
    {
        let (phase, action) = match (self.phase, event) {
            (UpdatePhase::Idle, UpdateEvent::Begin) => (UpdatePhase::Resolving, UpdateAction::Resolve),
            (UpdatePhase::Resolving, UpdateEvent::ResolveFailed) => (UpdatePhase::Finished, UpdateAction::Continue),
            (UpdatePhase::Resolving, UpdateEvent::Resolved(latest)) => match check_update(&self.handoff.source_hash, latest) {
                None => (UpdatePhase::Finished, UpdateAction::Continue),
                Some(update) => {
                    self.pending = Some(update);
                    (UpdatePhase::Stale, UpdateAction::AskInstall)
                },
            },
            (UpdatePhase::Stale, UpdateEvent::Consent(yes)) =>
                if yes {
                    (UpdatePhase::Downloading, UpdateAction::Download)
                } else {
                    (UpdatePhase::Finished, UpdateAction::Continue)
                },
            (UpdatePhase::Downloading, UpdateEvent::Downloaded(program)) =>
                (UpdatePhase::Handoff, UpdateAction::Spawn { program }),
            (UpdatePhase::Downloading, UpdateEvent::DownloadFailed(message)) =>
                (UpdatePhase::Finished, UpdateAction::Fail(message)),
            (UpdatePhase::Handoff, UpdateEvent::Spawned) =>
                if self.handoff.console_invoked {
                    (UpdatePhase::Waiting, UpdateAction::WaitForChild)
                } else {
                    (UpdatePhase::Finished, UpdateAction::Exit(0))
                },
            (UpdatePhase::Handoff, UpdateEvent::SpawnFailed(message)) =>
                (UpdatePhase::Finished, UpdateAction::Fail(message)),
            (UpdatePhase::Waiting, UpdateEvent::ChildExited(code)) => (UpdatePhase::Finished, UpdateAction::Exit(code)),
            _ => (UpdatePhase::Finished, UpdateAction::Halt),
        };
        self.phase = phase;
        action
    }
}

/// When the build's embedded hash is the latest hash, the self-update ends
/// as soon as the latest version is known: nothing is downloaded or handed
/// over, then or after.
pub proof fn lemma_current_build_kept(s: UpdateSession, latest: Version, later: UpdateEvent)
    requires
        s.phase == UpdatePhase::Resolving,
        latest.version_hash@ == s.handoff.source_hash@,
    ensures
        update_step(s, UpdateEvent::Resolved(latest)).1 == UpdateAction::Continue,
        update_step(s, UpdateEvent::Resolved(latest)).0.phase == UpdatePhase::Finished,
        update_step(update_step(s, UpdateEvent::Resolved(latest)).0, later).1 == UpdateAction::Halt,
        update_step(update_step(s, UpdateEvent::Resolved(latest)).0, later).0.phase == UpdatePhase::Finished,
{
}

/// A failure to resolve the latest version never stops the launcher.
pub proof fn lemma_resolve_failure_ignored(s: UpdateSession)
    requires
        s.phase == UpdatePhase::Resolving,
    ensures
        update_step(s, UpdateEvent::ResolveFailed).1 == UpdateAction::Continue,
{
}

/// One step of the new executable when it completes an update.
#[derive(Clone, Copy, Debug, PartialEq, Eq, Structural)]
pub enum ExecutorStep {
    /// Copy the running executable over the target file.
    ReplaceTarget,
    /// Have the running (temporary) executable deleted once it exits.
    ScheduleSelfDelete,
    /// Start the updated target as a new detached process.
    Relaunch,
    /// Report success; the user starts the launcher again from the console.
    ReportSuccess,
}

/// The steps that complete an update, in order: replace, schedule the
/// deletion of the temporary copy, then relaunch unless started from a console.
pub fn executor_steps(handoff: &CommandExecuteUpdate) -> (r: Vec<ExecutorStep>)
    ensures
        r@ == seq![
            ExecutorStep::ReplaceTarget,
            ExecutorStep::ScheduleSelfDelete,
            if handoff.console_invoked { ExecutorStep::ReportSuccess } else { ExecutorStep::Relaunch },
        ],
{
    let last = if handoff.console_invoked { ExecutorStep::ReportSuccess } else { ExecutorStep::Relaunch };
    vec![ExecutorStep::ReplaceTarget, ExecutorStep::ScheduleSelfDelete, last]
}

} // verus!
