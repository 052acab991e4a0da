use valthrun_loader::cli::AppCommand;
use valthrun_loader::components::Enhancer;
use valthrun_loader::ui::{item_names, select, title, Menu, MenuAction};
use valthrun_loader::driver::{classify_output, MapAction, MapDriverError, MapEvent, MapPhase, MapSession};
use valthrun_loader::fixes::{interfering_services, parse_powershell_boolean};

fn classify(s: &str) -> Result<bool, MapDriverError> {
    classify_output(s.to_string())
}

#[test]
fn blocklist_code_wins_over_later_markers() {
    assert_eq!(classify("[+] success 0xcf000001 0xc0000603"), Err(MapDriverError::DriverBlocklist));
    assert_eq!(classify("0xc0000603"), Err(MapDriverError::DriverBlocklist));
}

#[test]
fn nal_in_use_comes_first() {
    assert_eq!(classify("0xc0000603 Device\\Nal is already in use"), Err(MapDriverError::DeviceNalInUse));
}

#[test]
fn init_codes_are_classified() {
    assert_eq!(classify("status 0xcf000001"), Err(MapDriverError::LogInitFailed));
    assert_eq!(classify("status 0xcf000002"), Err(MapDriverError::PreInitFailed));
    assert_eq!(classify("status 0xcf000003 [+] success"), Err(MapDriverError::InitFailed));
}

#[test]
fn success_reports_already_loaded() {
    assert_eq!(classify("[+] success 0xcf000004"), Ok(true));
    assert_eq!(classify("[+] success"), Ok(false));
}

#[test]
fn unknown_output_is_kept_verbatim() {
    let text = "  something odd\nhappened ";
    assert_eq!(classify(text), Err(MapDriverError::Unknown(text.to_string())));
    assert_eq!(classify(""), Err(MapDriverError::Unknown(String::new())));
}

fn start(session: &mut MapSession) {
    assert_eq!(session.step(MapEvent::Begin), MapAction::CheckExclusion);
    assert_eq!(
        session.step(MapEvent::ExclusionStatus { scanner_active: true, excluded: true }),
        MapAction::RunMapper
    );
}

#[test]
fn nal_conflict_retried_once_then_fatal() {
    let mut session = MapSession::new();
    start(&mut session);
    assert_eq!(
        session.step(MapEvent::ToolOutput("Device\\Nal is already in use".to_string())),
        MapAction::RunNalFix
    );
    assert_eq!(session.step(MapEvent::NalFixed), MapAction::RunMapper);
    assert_eq!(
        session.step(MapEvent::ToolOutput("Device\\Nal is already in use".to_string())),
        MapAction::Finish(Err(MapDriverError::DeviceNalInUse))
    );
    assert_eq!(session.phase, MapPhase::Finished);
    assert_eq!(session.step(MapEvent::NalFixed), MapAction::Halt);
}

#[test]
fn nal_conflict_fixed_maps_driver() {
    let mut session = MapSession::new();
    start(&mut session);
    session.step(MapEvent::ToolOutput("Device\\Nal is already in use".to_string()));
    session.step(MapEvent::NalFixed);
    assert_eq!(session.step(MapEvent::ToolOutput("[+] success".to_string())), MapAction::Finish(Ok(false)));
}

#[test]
fn nal_fix_failure_is_fatal() {
    let mut session = MapSession::new();
    start(&mut session);
    session.step(MapEvent::ToolOutput("Device\\Nal is already in use".to_string()));
    assert_eq!(
        session.step(MapEvent::NalFixFailed("offline".to_string())),
        MapAction::Finish(Err(MapDriverError::NalFixError("offline".to_string())))
    );
}

#[test]
fn exclusion_offered_when_scanner_active() {
    let mut session = MapSession::new();
    session.step(MapEvent::Begin);
    assert_eq!(
        session.step(MapEvent::ExclusionStatus { scanner_active: true, excluded: false }),
        MapAction::OfferExclusion
    );
    assert_eq!(session.step(MapEvent::ExclusionHandled), MapAction::RunMapper);
}

#[test]
fn blocklist_leads_to_reboot_with_consent() {
    let mut session = MapSession::new();
    start(&mut session);
    assert_eq!(session.step(MapEvent::ToolOutput("0xc0000603".to_string())), MapAction::AskDisableProtections);
    assert_eq!(session.step(MapEvent::Consent(true)), MapAction::DisableProtections);
    assert_eq!(session.step(MapEvent::ProtectionsDisabled), MapAction::AskReboot);
    assert_eq!(session.step(MapEvent::Consent(true)), MapAction::ScheduleReboot);
    assert_eq!(session.phase, MapPhase::Finished);
}

#[test]
fn blocklist_declined_is_fatal() {
    let mut session = MapSession::new();
    start(&mut session);
    session.step(MapEvent::ToolOutput("0xc0000603".to_string()));
    assert_eq!(session.step(MapEvent::Consent(false)), MapAction::Finish(Err(MapDriverError::DriverBlocklist)));
}

#[test]
fn reboot_declined_is_fatal() {
    let mut session = MapSession::new();
    start(&mut session);
    session.step(MapEvent::ToolOutput("0xc0000603".to_string()));
    session.step(MapEvent::Consent(true));
    session.step(MapEvent::ProtectionsDisabled);
    assert_eq!(session.step(MapEvent::Consent(false)), MapAction::Finish(Err(MapDriverError::DriverBlocklist)));
}

#[test]
fn other_failures_are_fatal_at_once() {
    let mut session = MapSession::new();
    start(&mut session);
    assert_eq!(
        session.step(MapEvent::ToolOutput("weird".to_string())),
        MapAction::Finish(Err(MapDriverError::Unknown("weird".to_string())))
    );
    let mut session = MapSession::new();
    start(&mut session);
    assert_eq!(
        session.step(MapEvent::ToolFailed("not found".to_string())),
        MapAction::Finish(Err(MapDriverError::SpawnProcess("not found".to_string())))
    );
}

#[test]
fn out_of_order_event_halts() {
    let mut session = MapSession::new();
    assert_eq!(session.step(MapEvent::NalFixed), MapAction::Halt);
    assert_eq!(session.phase, MapPhase::Finished);
}

#[test]
fn powershell_booleans() {
    assert_eq!(parse_powershell_boolean("True\r\n"), Ok(true));
    assert_eq!(parse_powershell_boolean("False\r\n"), Ok(false));
    assert_eq!(parse_powershell_boolean("False True"), Ok(true));
    let err = parse_powershell_boolean("nope").unwrap_err();
    assert_eq!(err.output, "nope");
}

#[test]
fn services_checked_before_mapping() {
    assert_eq!(interfering_services(), vec!["faceit", "vgc", "vgk", "ESEADriver2"]);
}

#[test]
fn menu_navigation() {
    assert_eq!(title(Menu::Main), "Please select the command you want to execute:");
    assert_eq!(item_names(Menu::Main).len(), 3);
    assert_eq!(select(Menu::Main, 1), Some(MenuAction::Submenu(Menu::Launch)));
    assert_eq!(select(Menu::Main, 2), Some(MenuAction::Command(AppCommand::Version)));
    assert_eq!(
        select(Menu::Launch, 2),
        Some(MenuAction::Command(AppCommand::Launch { enhancer: Enhancer::Cs2StandaloneRadar }))
    );
    assert_eq!(select(Menu::QuickStart, 1), Some(MenuAction::Command(AppCommand::QuickStart)));
    assert_eq!(select(Menu::QuickStart, 2), None);
    assert_eq!(item_names(Menu::Launch)[0], "Map the kernel driver via KDMapper");
}
