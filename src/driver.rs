use vstd::prelude::*;
use crate::text::{contains, has_substring};

verus! {

/// What the mapping tool prints when the NAL device is held by another driver.
pub const NAL_IN_USE: &'static str = "Device\\Nal is already in use";

/// The status of a driver refused by the vulnerable-driver blocklist.
pub const BLOCKLIST_CODE: &'static str = "0xc0000603";

/// The driver could not set up its logging.
pub const LOG_INIT_CODE: &'static str = "0xcf000001";

/// A call that prepares the driver's initialisation failed.
pub const PRE_INIT_CODE: &'static str = "0xcf000002";

/// The driver's initialisation failed.
pub const INIT_CODE: &'static str = "0xcf000003";

/// The mapping tool's report of success.
pub const SUCCESS_MARK: &'static str = "[+] success";

/// The driver was already loaded, so nothing new was mapped.
pub const ALREADY_LOADED_CODE: &'static str = "0xcf000004";

/// Why mapping the driver failed.
#[derive(Clone, Debug, PartialEq, Eq)]
pub enum MapDriverError {
    /// The vulnerable-driver blocklist or HVCI refused the driver.
    DriverBlocklist,
    /// The driver could not set up its logging.
    LogInitFailed,
    /// A call that prepares the driver's initialisation failed.
    PreInitFailed,
    /// The driver's initialisation failed.
    InitFailed,
    /// The NAL device is held by another driver.
    DeviceNalInUse,
    /// The tool that frees the NAL device failed, with its message.
    NalFixError(String),
    /// The mapping tool could not be started, with the system's message.
    SpawnProcess(String),
    /// The mapping tool printed nothing that is recognised; its full output.
    Unknown(String),
}

/// The output mentions none of the markers that the classification looks for.
pub open spec fn no_known_marker(s: Seq<char>) -> bool {
    &&& !has_substring(s, NAL_IN_USE@)
    &&& !has_substring(s, BLOCKLIST_CODE@)
    &&& !has_substring(s, LOG_INIT_CODE@)
    &&& !has_substring(s, PRE_INIT_CODE@)
    &&& !has_substring(s, INIT_CODE@)
    &&& !has_substring(s, SUCCESS_MARK@)
}

/// The outcome that the mapping tool's output reports: the first marker that
/// occurs, in a fixed order, decides. `Ok(already_loaded)` on success.
pub open spec fn classify(output: String) -> Result<bool, MapDriverError> {
    let s = output@;
    if has_substring(s, NAL_IN_USE@) {
        Err(MapDriverError::DeviceNalInUse)
    } else if has_substring(s, BLOCKLIST_CODE@) {
        Err(MapDriverError::DriverBlocklist)
    } else if has_substring(s, LOG_INIT_CODE@) {
        Err(MapDriverError::LogInitFailed)
    } else if has_substring(s, PRE_INIT_CODE@) {
        Err(MapDriverError::PreInitFailed)
    } else if has_substring(s, INIT_CODE@) {
        Err(MapDriverError::InitFailed)
    } else if has_substring(s, SUCCESS_MARK@) {
        Ok(has_substring(s, ALREADY_LOADED_CODE@))
    } else {
        Err(MapDriverError::Unknown(output))
    }
}

/// Classifies the output of one run of the mapping tool.
pub fn classify_output(output: String) -> (r: Result<bool, MapDriverError>)
    ensures
        r == classify(output),
        has_substring(output@, BLOCKLIST_CODE@) && !has_substring(output@, NAL_IN_USE@)
            ==> r == Err::<bool, MapDriverError>(MapDriverError::DriverBlocklist),
        no_known_marker(output@) ==> r == Err::<bool, MapDriverError>(MapDriverError::Unknown(output)),
{
    let s = output.as_str();
    if contains(s, NAL_IN_USE) {
        Err(MapDriverError::DeviceNalInUse)
    } else if contains(s, BLOCKLIST_CODE) {
        Err(MapDriverError::DriverBlocklist)
    } else if contains(s, LOG_INIT_CODE) {
        Err(MapDriverError::LogInitFailed)
    } else if contains(s, PRE_INIT_CODE) {
        Err(MapDriverError::PreInitFailed)
    } else if contains(s, INIT_CODE) {
        Err(MapDriverError::InitFailed)
    } else if contains(s, SUCCESS_MARK) {
        Ok(contains(s, ALREADY_LOADED_CODE))
    } else {
        Err(MapDriverError::Unknown(output))
    }
}

/// Where a driver-mapping session stands.
#[derive(Clone, Copy, Debug, PartialEq, Eq)]
pub enum MapPhase {
    /// Nothing has been done yet.
    Start,
    /// Waiting to learn whether the scanner excludes the mapping tool.
    CheckingExclusion,
    /// The user has been offered an exclusion for the mapping tool.
    AddingExclusion,
    /// The mapping tool runs for the first time.
    FirstAttempt,
    /// The NAL fix runs after the device was reported in use.
    FixingNal,
    /// The mapping tool runs for the second and last time.
    Retrying,
    /// The user is asked whether the blocking security settings may be turned off.
    AwaitingDisableConsent,
    /// The security settings are being turned off.
    DisablingProtections,
    /// The user is asked whether to restart now.
    AwaitingRebootConsent,
    /// The session is over.
    Finished,
}

/// What the caller reports back after carrying out an action.
#[derive(Clone, Debug, PartialEq, Eq)]
pub enum MapEvent {
    /// The user asked for the driver to be mapped.
    Begin,
    /// Whether real-time scanning is on, and whether the mapping tool is excluded.
    ExclusionStatus { scanner_active: bool, excluded: bool },
    /// The exclusion step is over, whether or not it succeeded.
    ExclusionHandled,
    /// The mapping tool ran and printed this.
    ToolOutput(String),
    /// The mapping tool could not be started.
    ToolFailed(String),
    /// The NAL fix ran.
    NalFixed,
    /// The NAL fix failed.
    NalFixFailed(String),
    /// The user's answer to the last question.
    Consent(bool),
    /// Both security settings were written (a failure of either is only reported).
    ProtectionsDisabled,
}

/// What the caller is to do next.
#[derive(Debug, PartialEq, Eq)]
pub enum MapAction {
    /// Find out whether scanning is on and the mapping tool excluded.
    CheckExclusion,
    /// Offer to exclude the mapping tool from scanning.
    OfferExclusion,
    /// Run the mapping tool on the driver.
    RunMapper,
    /// Fetch and run the tool that frees the NAL device.
    RunNalFix,
    /// Ask whether HVCI and the vulnerable-driver blocklist may be turned off.
    AskDisableProtections,
    /// Turn off HVCI and the vulnerable-driver blocklist.
    DisableProtections,
    /// Ask whether to restart now.
    AskReboot,
    /// Schedule a restart and end the process.
    ScheduleReboot,
    /// The session ends with this outcome: `Ok(already_loaded)` or the error.
    Finish(Result<bool, MapDriverError>),
    /// Nothing more to do: the event did not fit the session's phase.
    Halt,
}

/// The transition table of a mapping session: the next phase and the action
/// that the caller must carry out.
pub open spec fn map_step(phase: MapPhase, event: MapEvent) -> (MapPhase, MapAction) {
    match (phase, event) {
        (MapPhase::Start, MapEvent::Begin) => (MapPhase::CheckingExclusion, MapAction::CheckExclusion),
        (MapPhase::CheckingExclusion, MapEvent::ExclusionStatus { scanner_active, excluded }) =>
            if scanner_active && !excluded {
                (MapPhase::AddingExclusion, MapAction::OfferExclusion)
            } else {
                (MapPhase::FirstAttempt, MapAction::RunMapper)
            },
        (MapPhase::CheckingExclusion, MapEvent::ExclusionHandled) => (MapPhase::FirstAttempt, MapAction::RunMapper),
        (MapPhase::AddingExclusion, MapEvent::ExclusionHandled) => (MapPhase::FirstAttempt, MapAction::RunMapper),
        (MapPhase::FirstAttempt, MapEvent::ToolOutput(output)) => match classify(output) {
            Err(MapDriverError::DeviceNalInUse) => (MapPhase::FixingNal, MapAction::RunNalFix),
            Err(MapDriverError::DriverBlocklist) => (MapPhase::AwaitingDisableConsent, MapAction::AskDisableProtections),
            outcome => (MapPhase::Finished, MapAction::Finish(outcome)),
        },
        (MapPhase::FirstAttempt, MapEvent::ToolFailed(message)) =>
            (MapPhase::Finished, MapAction::Finish(Err(MapDriverError::SpawnProcess(message)))),
        (MapPhase::FixingNal, MapEvent::NalFixed) => (MapPhase::Retrying, MapAction::RunMapper),
        (MapPhase::FixingNal, MapEvent::NalFixFailed(message)) =>
            (MapPhase::Finished, MapAction::Finish(Err(MapDriverError::NalFixError(message)))),
        (MapPhase::Retrying, MapEvent::ToolOutput(output)) => (MapPhase::Finished, MapAction::Finish(classify(output))),
        (MapPhase::Retrying, MapEvent::ToolFailed(message)) =>
            (MapPhase::Finished, MapAction::Finish(Err(MapDriverError::SpawnProcess(message)))),
        (MapPhase::AwaitingDisableConsent, MapEvent::Consent(yes)) =>
            if yes {
                (MapPhase::DisablingProtections, MapAction::DisableProtections)
            } else {
                (MapPhase::Finished, MapAction::Finish(Err(MapDriverError::DriverBlocklist)))
            },
        (MapPhase::DisablingProtections, MapEvent::ProtectionsDisabled) =>
            (MapPhase::AwaitingRebootConsent, MapAction::AskReboot),
        (MapPhase::AwaitingRebootConsent, MapEvent::Consent(yes)) =>
            if yes {
                (MapPhase::Finished, MapAction::ScheduleReboot)
            } else {
                (MapPhase::Finished, MapAction::Finish(Err(MapDriverError::DriverBlocklist)))
            },
        _ => (MapPhase::Finished, MapAction::Halt),
    }
}

/// One driver-mapping session: decides, from what each action brought, what
/// to do next and when to stop.
#[derive(Debug)]
pub struct MapSession {
    pub phase: MapPhase,
}

impl MapSession {
    /// A session in which nothing has been done.
    pub fn new() -> (r: MapSession)
        ensures
            r.phase == MapPhase::Start,
    {
        MapSession { phase: MapPhase::Start }
    }

    /// Takes the report of the last action and returns the next one.
    pub fn step(&mut self, event: MapEvent) -> (r: MapAction)
        ensures
            (final(self).phase, r) == map_step(old(self).phase, event),
    {
        let (phase, action) = match (self.phase, event) {
            (MapPhase::Start, MapEvent::Begin) => (MapPhase::CheckingExclusion, MapAction::CheckExclusion),
            (MapPhase::CheckingExclusion, MapEvent::ExclusionStatus { scanner_active, excluded }) =>
                if scanner_active && !excluded {
                    (MapPhase::AddingExclusion, MapAction::OfferExclusion)
                } else {
                    (MapPhase::FirstAttempt, MapAction::RunMapper)
                },
            (MapPhase::CheckingExclusion, MapEvent::ExclusionHandled) => (MapPhase::FirstAttempt, MapAction::RunMapper),
            (MapPhase::AddingExclusion, MapEvent::ExclusionHandled) => (MapPhase::FirstAttempt, MapAction::RunMapper),
            (MapPhase::FirstAttempt, MapEvent::ToolOutput(output)) => match classify_output(output) {
                Err(MapDriverError::DeviceNalInUse) => (MapPhase::FixingNal, MapAction::RunNalFix),
                Err(MapDriverError::DriverBlocklist) => (MapPhase::AwaitingDisableConsent, MapAction::AskDisableProtections),
                outcome => (MapPhase::Finished, MapAction::Finish(outcome)),
            },
            (MapPhase::FirstAttempt, MapEvent::ToolFailed(message)) =>
                (MapPhase::Finished, MapAction::Finish(Err(MapDriverError::SpawnProcess(message)))),
            (MapPhase::FixingNal, MapEvent::NalFixed) => (MapPhase::Retrying, MapAction::RunMapper),
            (MapPhase::FixingNal, MapEvent::NalFixFailed(message)) =>
                (MapPhase::Finished, MapAction::Finish(Err(MapDriverError::NalFixError(message)))),
            (MapPhase::Retrying, MapEvent::ToolOutput(output)) =>
                (MapPhase::Finished, MapAction::Finish(classify_output(output))),
            (MapPhase::Retrying, MapEvent::ToolFailed(message)) =>
                (MapPhase::Finished, MapAction::Finish(Err(MapDriverError::SpawnProcess(message)))),
            (MapPhase::AwaitingDisableConsent, MapEvent::Consent(yes)) =>
                if yes {
                    (MapPhase::DisablingProtections, MapAction::DisableProtections)
                } else {
                    (MapPhase::Finished, MapAction::Finish(Err(MapDriverError::DriverBlocklist)))
                },
            (MapPhase::DisablingProtections, MapEvent::ProtectionsDisabled) =>
                (MapPhase::AwaitingRebootConsent, MapAction::AskReboot),
            (MapPhase::AwaitingRebootConsent, MapEvent::Consent(yes)) =>
                if yes {
                    (MapPhase::Finished, MapAction::ScheduleReboot)
                } else {
                    (MapPhase::Finished, MapAction::Finish(Err(MapDriverError::DriverBlocklist)))
                },
            _ => (MapPhase::Finished, MapAction::Halt),
        };
        self.phase = phase;
        action
    }
}

/// After the NAL device was reported in use and the fix ran, the mapping tool
/// runs once more, and that run ends the session: a failure there is surfaced
/// as the session's error, and a finished session never runs the tool again.
pub proof fn lemma_nal_conflict_retried_once(first: String, second: String, later: MapEvent)
    requires
        classify(first) == Err::<bool, MapDriverError>(MapDriverError::DeviceNalInUse),
    ensures
        map_step(MapPhase::FirstAttempt, MapEvent::ToolOutput(first)) == (MapPhase::FixingNal, MapAction::RunNalFix),
        map_step(MapPhase::FixingNal, MapEvent::NalFixed) == (MapPhase::Retrying, MapAction::RunMapper),
        map_step(MapPhase::Retrying, MapEvent::ToolOutput(second))
            == (MapPhase::Finished, MapAction::Finish(classify(second))),
        classify(second) is Err ==> map_step(MapPhase::Retrying, MapEvent::ToolOutput(second)).1
            == MapAction::Finish(Err(classify(second)->Err_0)),
        map_step(MapPhase::Finished, later) == (MapPhase::Finished, MapAction::Halt),
{
}

/// A blocklisted driver is never retried in the same session: every answer of
/// the user either ends the session with the blocklist error or leads to a restart.
pub proof fn lemma_blocklist_not_retried(output: String, consent: bool, reboot: bool)
    requires
        classify(output) == Err::<bool, MapDriverError>(MapDriverError::DriverBlocklist),
    ensures
        map_step(MapPhase::FirstAttempt, MapEvent::ToolOutput(output))
            == (MapPhase::AwaitingDisableConsent, MapAction::AskDisableProtections),
        !consent ==> map_step(MapPhase::AwaitingDisableConsent, MapEvent::Consent(consent))
            == (MapPhase::Finished, MapAction::Finish(Err(MapDriverError::DriverBlocklist))),
        consent ==> map_step(MapPhase::AwaitingDisableConsent, MapEvent::Consent(consent))
            == (MapPhase::DisablingProtections, MapAction::DisableProtections),
        map_step(MapPhase::AwaitingRebootConsent, MapEvent::Consent(reboot)) == (
            MapPhase::Finished,
            if reboot { MapAction::ScheduleReboot } else { MapAction::Finish(Err(MapDriverError::DriverBlocklist)) },
        ),
{
}

} // verus!
