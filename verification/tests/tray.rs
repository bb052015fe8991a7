use audio_link::tray::{
    menu_choice, menu_entries, run, run_tray_event_loop, MenuChoice, MenuEntry, Tray, TrayAction,
    TrayEvent, TrayStage,
};

fn chosen(choice: MenuChoice) -> TrayEvent {
    TrayEvent::Chosen { choice, service_finished: false }
}

fn running() -> Tray {
    run(true, true, Some(false))
}

#[test]
fn entries_are_known_by_their_ids() {
    assert!(menu_choice("open_admin") == MenuChoice::OpenAdmin);
    assert!(menu_choice("service_toggle") == MenuChoice::ServiceToggle);
    assert!(menu_choice("autostart") == MenuChoice::Autostart);
    assert!(menu_choice("quit") == MenuChoice::Quit);
    assert!(menu_choice("open") == MenuChoice::Other);
    assert!(menu_choice("") == MenuChoice::Other);
    let entries = menu_entries();
    assert_eq!(entries.len(), 7);
    assert!(entries[0] == MenuEntry::ServiceStatus && entries[6] == MenuEntry::Quit);
}

#[test]
fn menu_shows_the_service() {
    let tray = running();
    assert_eq!(tray.menu.status_text, "状态：运行中");
    assert_eq!(tray.menu.toggle_text, "停止服务");
    assert!(tray.menu.open_admin_enabled);
    let tray = run(false, false, Some(true));
    assert_eq!(tray.menu.status_text, "状态：已停止");
    assert_eq!(tray.menu.toggle_text, "启动服务");
    assert!(!tray.menu.open_admin_enabled);
    assert!(!tray.menu.autostart_enabled && !tray.menu.autostart_checked);
    assert!(run(false, true, Some(true)).menu.autostart_checked);
    assert!(!run(false, true, None).menu.autostart_checked);
}

#[test]
fn service_is_toggled() {
    let mut tray = running();
    let action = run_tray_event_loop(&mut tray, chosen(MenuChoice::ServiceToggle));
    assert!(action == TrayAction::StopService);
    run_tray_event_loop(&mut tray, TrayEvent::ServiceStopped);
    assert!(!tray.service);
    assert_eq!(tray.menu.toggle_text, "启动服务");
    let action = run_tray_event_loop(&mut tray, chosen(MenuChoice::ServiceToggle));
    assert!(action == TrayAction::StartService);
    run_tray_event_loop(&mut tray, TrayEvent::ServiceStarted { running: false });
    assert!(!tray.service && tray.stage == TrayStage::Idle);
    run_tray_event_loop(&mut tray, chosen(MenuChoice::ServiceToggle));
    run_tray_event_loop(&mut tray, TrayEvent::ServiceStarted { running: true });
    assert!(tray.service && tray.menu.open_admin_enabled);
}

#[test]
fn finished_service_is_cleared_away_first() {
    let mut tray = running();
    let event = TrayEvent::Chosen { choice: MenuChoice::OpenAdmin, service_finished: true };
    assert!(run_tray_event_loop(&mut tray, event) == TrayAction::StopService);
    assert!(run_tray_event_loop(&mut tray, TrayEvent::ServiceStopped) == TrayAction::OpenAdmin);
    assert!(!tray.service && tray.stage == TrayStage::Idle);
    assert_eq!(tray.menu.status_text, "状态：已停止");
}

#[test]
fn autostart_is_turned_round() {
    let mut tray = running();
    assert!(
        run_tray_event_loop(&mut tray, chosen(MenuChoice::Autostart)) == TrayAction::ReadAutostart
    );
    let action = run_tray_event_loop(&mut tray, TrayEvent::AutostartRead { enabled: Some(false) });
    assert!(action == TrayAction::SetAutostart { enable: true });
    run_tray_event_loop(&mut tray, TrayEvent::AutostartSet { succeeded: true });
    assert!(tray.menu.autostart_checked);
    run_tray_event_loop(&mut tray, chosen(MenuChoice::Autostart));
    run_tray_event_loop(&mut tray, TrayEvent::AutostartRead { enabled: Some(true) });
    run_tray_event_loop(&mut tray, TrayEvent::AutostartSet { succeeded: false });
    assert!(tray.menu.autostart_checked);
    run_tray_event_loop(&mut tray, chosen(MenuChoice::Autostart));
    run_tray_event_loop(&mut tray, TrayEvent::AutostartRead { enabled: None });
    assert!(tray.stage == TrayStage::Idle);
    let mut bare = run(true, false, None);
    let action = run_tray_event_loop(&mut bare, chosen(MenuChoice::Autostart));
    assert!(action == TrayAction::Wait && !bare.menu.autostart_checked);
}

#[test]
fn quitting_stops_the_service() {
    let mut tray = running();
    assert!(run_tray_event_loop(&mut tray, chosen(MenuChoice::Quit)) == TrayAction::StopService);
    assert!(run_tray_event_loop(&mut tray, TrayEvent::ServiceStopped) == TrayAction::Exit);
    assert!(!tray.service);
    assert_eq!(tray.menu.status_text, "状态：运行中");
    assert!(tray.menu.open_admin_enabled);
    let mut idle = run(false, true, None);
    assert!(run_tray_event_loop(&mut idle, chosen(MenuChoice::Quit)) == TrayAction::Exit);
    assert!(
        run_tray_event_loop(&mut idle, chosen(MenuChoice::ServiceToggle)) == TrayAction::Wait
    );
}

#[test]
fn other_entries_do_nothing() {
    let mut tray = running();
    assert!(run_tray_event_loop(&mut tray, chosen(MenuChoice::Other)) == TrayAction::Wait);
    assert!(run_tray_event_loop(&mut tray, chosen(MenuChoice::OpenAdmin)) == TrayAction::OpenAdmin);
    assert!(tray.stage == TrayStage::Idle && tray.service);
}
