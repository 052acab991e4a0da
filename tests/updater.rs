use std::cell::RefCell;

use valthrun_loader::api::Version;
use valthrun_loader::cli::{checks_for_updates, AppCommand, CommandExecuteUpdate};
use valthrun_loader::components::{Artifact, Enhancer};
use valthrun_loader::metrics::{Metrics, MetricsClient};
use valthrun_loader::updater::{
    check_update, executor_steps, ExecutorStep, Update, UpdateAction, UpdateEvent, UpdatePhase, UpdateSession,
};

fn version(hash: &str) -> Version {
    Version {
        id: 3,
        artifact: 1,
        track: 2,
        timestamp: 0,
        version: "0.4.1".to_string(),
        version_hash: hash.to_string(),
        file_size: "1".to_string(),
        file_name: "loader.exe".to_string(),
        file_extension: "exe".to_string(),
        file_type: "application".to_string(),
        requires_signing: false,
        download_count: "0".to_string(),
    }
}

fn handoff(console_invoked: bool) -> CommandExecuteUpdate {
    CommandExecuteUpdate {
        target_file: "C:\\loader.exe".to_string(),
        source_version: "0.4.0".to_string(),
        source_hash: "abc1234".to_string(),
        console_invoked,
    }
}

#[test]
fn same_hash_means_no_update() {
    assert_eq!(check_update(&"abc1234".to_string(), version("abc1234")), None);
    assert_eq!(check_update(&"abc1234".to_string(), version("ABC1234")), Some(Update(version("ABC1234"))));
}

#[test]
fn current_build_is_not_replaced() {
    let mut session = UpdateSession::new(handoff(false));
    assert_eq!(session.step(UpdateEvent::Begin), UpdateAction::Resolve);
    assert_eq!(session.step(UpdateEvent::Resolved(version("abc1234"))), UpdateAction::Continue);
    assert_eq!(session.phase, UpdatePhase::Finished);
    assert_eq!(session.pending, None);
    assert_eq!(session.step(UpdateEvent::Consent(true)), UpdateAction::Halt);
}

#[test]
fn resolve_failure_continues() {
    let mut session = UpdateSession::new(handoff(false));
    session.step(UpdateEvent::Begin);
    assert_eq!(session.step(UpdateEvent::ResolveFailed), UpdateAction::Continue);
}

#[test]
fn declined_update_continues() {
    let mut session = UpdateSession::new(handoff(false));
    session.step(UpdateEvent::Begin);
    assert_eq!(session.step(UpdateEvent::Resolved(version("fff0000"))), UpdateAction::AskInstall);
    assert_eq!(session.step(UpdateEvent::Consent(false)), UpdateAction::Continue);
}

#[test]
fn accepted_update_hands_off_and_exits() {
    let mut session = UpdateSession::new(handoff(false));
    session.step(UpdateEvent::Begin);
    session.step(UpdateEvent::Resolved(version("fff0000")));
    assert_eq!(session.pending, Some(Update(version("fff0000"))));
    assert_eq!(session.step(UpdateEvent::Consent(true)), UpdateAction::Download);
    assert_eq!(
        session.step(UpdateEvent::Downloaded("C:\\tmp\\new.exe".to_string())),
        UpdateAction::Spawn { program: "C:\\tmp\\new.exe".to_string() }
    );
    assert_eq!(session.step(UpdateEvent::Spawned), UpdateAction::Exit(0));
}

#[test]
fn console_update_waits_and_forwards_exit_code() {
    let mut session = UpdateSession::new(handoff(true));
    session.step(UpdateEvent::Begin);
    session.step(UpdateEvent::Resolved(version("fff0000")));
    session.step(UpdateEvent::Consent(true));
    session.step(UpdateEvent::Downloaded("new.exe".to_string()));
    assert_eq!(session.step(UpdateEvent::Spawned), UpdateAction::WaitForChild);
    assert_eq!(session.step(UpdateEvent::ChildExited(3)), UpdateAction::Exit(3));
}

#[test]
fn download_failure_is_reported() {
    let mut session = UpdateSession::new(handoff(true));
    session.step(UpdateEvent::Begin);
    session.step(UpdateEvent::Resolved(version("fff0000")));
    session.step(UpdateEvent::Consent(true));
    assert_eq!(
        session.step(UpdateEvent::DownloadFailed("timeout".to_string())),
        UpdateAction::Fail("timeout".to_string())
    );
}

#[test]
fn update_download_address() {
    let update = Update(version("x"));
    assert_eq!(
        update.download_url(),
        "https://valth.run/api/artifacts/00000000-0000-0000-0000-000000000001/00000000-0000-0000-0000-000000000002/00000000-0000-0000-0000-000000000003/download"
    );
}

#[test]
fn handoff_arguments() {
    assert_eq!(
        handoff(true).to_args(),
        vec![
            "execute-update",
            "--target-file",
            "C:\\loader.exe",
            "--source-version",
            "0.4.0",
            "--source-hash",
            "abc1234",
            "--console-invoked",
            "true"
        ]
    );
    assert_eq!(handoff(false).to_args()[8], "false");
}

#[test]
fn executor_relaunches_unless_console() {
    assert_eq!(
        executor_steps(&handoff(false)),
        vec![ExecutorStep::ReplaceTarget, ExecutorStep::ScheduleSelfDelete, ExecutorStep::Relaunch]
    );
    assert_eq!(
        executor_steps(&handoff(true)),
        vec![ExecutorStep::ReplaceTarget, ExecutorStep::ScheduleSelfDelete, ExecutorStep::ReportSuccess]
    );
}

#[test]
fn update_check_skipped_for_version_and_handoff() {
    assert!(!checks_for_updates(&Some(AppCommand::Version)));
    assert!(!checks_for_updates(&Some(AppCommand::ExecuteUpdate(handoff(true)))));
    assert!(checks_for_updates(&Some(AppCommand::MapDriver)));
    assert!(checks_for_updates(&Some(AppCommand::Launch { enhancer: Enhancer::Cs2Overlay })));
    assert!(checks_for_updates(&None));
}

#[test]
fn artifact_identities() {
    assert_eq!(Artifact::KernelDriver.slug(), "kernel-driver");
    assert_eq!(Artifact::KernelDriver.file_name(), "kernel_driver.sys");
    assert_eq!(Artifact::Cs2RadarClient.name(), "CS2 Radar Client");
    assert_eq!(Enhancer::Cs2StandaloneRadar.required_artifacts(), vec![Artifact::Cs2RadarClient, Artifact::DriverInterfaceKernel]);
    assert_eq!(Enhancer::Cs2Overlay.artifact_to_execute(), Artifact::Cs2Overlay);
}

struct Recorder {
    records: RefCell<Vec<(String, String)>>,
}

impl MetricsClient for Recorder {
    fn add_record(&self, report_type: String, payload: String) {
        self.records.borrow_mut().push((report_type, payload));
    }

    fn flush(&self, _blocking: bool) -> usize {
        self.records.borrow_mut().drain(..).count()
    }

    fn shutdown(self) {}
}

#[test]
fn metrics_handle_forwards_to_client() {
    let mut metrics = Metrics::init(Recorder { records: RefCell::new(Vec::new()) });
    metrics.add_record("event".to_string(), "map".to_string());
    assert_eq!(metrics.flush(true), 2);
    assert_eq!(metrics.flush(false), 0);
    metrics.shutdown();
    assert!(metrics.client.is_none());
    metrics.add_record("event".to_string(), "late".to_string());
    assert_eq!(metrics.flush(true), 0);
}

#[test]
fn disabled_metrics_send_nothing() {
    let metrics: Metrics<Recorder> = Metrics::disabled();
    metrics.add_record("event".to_string(), "x".to_string());
    assert_eq!(metrics.flush(true), 0);
}
