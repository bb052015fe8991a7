//! What a choice in the tray menu comes to, from the click to the end of its work.

use crate::tray::{
    checked_after, choice_of, entries, service_after, tray_next, MenuChoice, MenuEntry, Tray,
    TrayAction, TrayEvent, TrayMenu, TrayStage,
};
use vstd::prelude::*;

verus! {

/// What an entry begins, with the service as it was found.
pub open spec fn begins(
    tray: Tray,
    choice: MenuChoice,
    service_finished: bool,
    stage: TrayStage,
    action: TrayAction,
) -> bool {
    tray_next(tray, TrayEvent::Chosen { choice, service_finished }) == (stage, action)
}

/// A service that runs is stopped by its entry, and then runs no longer; one that does
/// not run is started by it, and then runs where the start succeeded.
pub proof fn toggle_turns_the_service_round(tray: Tray, finished: bool, running: bool)
    requires
        tray.stage is Idle,
    ensures
        tray.service ==> begins(
            tray,
            MenuChoice::ServiceToggle,
            false,
            TrayStage::Stopping,
            TrayAction::StopService,
        ),
        !tray.service ==> begins(
            tray,
            MenuChoice::ServiceToggle,
            finished,
            TrayStage::Starting,
            TrayAction::StartService,
        ),
        ({
            let stopping = Tray { stage: TrayStage::Stopping, ..tray };
            &&& tray_next(stopping, TrayEvent::ServiceStopped) == (
                TrayStage::Idle,
                TrayAction::Wait,
            )
            &&& !service_after(stopping, TrayEvent::ServiceStopped)
        }),
        ({
            let starting = Tray { stage: TrayStage::Starting, ..tray };
            &&& tray_next(starting, TrayEvent::ServiceStarted { running }) == (
                TrayStage::Idle,
                TrayAction::Wait,
            )
            &&& service_after(starting, TrayEvent::ServiceStarted { running }) == running
        }),
{
}

/// The setting is read, then turned round; the mark shows what was set, and stays as it
/// was where that failed or nothing could be read. Without such a setting there is
/// nothing to do and no mark.
pub proof fn autostart_is_turned_round(tray: Tray, finished: bool, on: bool)
    requires
        tray.stage is Idle,
        !(tray.service && finished),
    ensures
        tray.menu.autostart_enabled ==> begins(
            tray,
            MenuChoice::Autostart,
            finished,
            TrayStage::ReadingAutostart,
            TrayAction::ReadAutostart,
        ) && checked_after(
            tray,
            TrayEvent::Chosen { choice: MenuChoice::Autostart, service_finished: finished },
        ) == tray.menu.autostart_checked,
        !tray.menu.autostart_enabled ==> begins(
            tray,
            MenuChoice::Autostart,
            finished,
            TrayStage::Idle,
            TrayAction::Wait,
        ) && !checked_after(
            tray,
            TrayEvent::Chosen { choice: MenuChoice::Autostart, service_finished: finished },
        ),
        ({
            let reading = Tray { stage: TrayStage::ReadingAutostart, ..tray };
            &&& tray_next(reading, TrayEvent::AutostartRead { enabled: Some(true) }) == (
                TrayStage::SettingAutostart { enable: false },
                TrayAction::SetAutostart { enable: false },
            )
            &&& tray_next(reading, TrayEvent::AutostartRead { enabled: Some(false) }) == (
                TrayStage::SettingAutostart { enable: true },
                TrayAction::SetAutostart { enable: true },
            )
            &&& tray_next(reading, TrayEvent::AutostartRead { enabled: None }) == (
                TrayStage::Idle,
                TrayAction::Wait,
            )
            &&& checked_after(reading, TrayEvent::AutostartRead { enabled: Some(on) })
                == tray.menu.autostart_checked
            &&& checked_after(reading, TrayEvent::AutostartRead { enabled: None })
                == tray.menu.autostart_checked
        }),
        ({
            let setting = Tray { stage: TrayStage::SettingAutostart { enable: on }, ..tray };
            &&& tray_next(setting, TrayEvent::AutostartSet { succeeded: true }) == (
                TrayStage::Idle,
                TrayAction::Wait,
            )
            &&& tray_next(setting, TrayEvent::AutostartSet { succeeded: false }) == (
                TrayStage::Idle,
                TrayAction::Wait,
            )
            &&& checked_after(setting, TrayEvent::AutostartSet { succeeded: true }) == on
            &&& checked_after(setting, TrayEvent::AutostartSet { succeeded: false })
                == tray.menu.autostart_checked
        }),
{
}

/// The program exits at once where no service runs, and else once it has stopped; the
/// admin page is opened at once, and an entry without a meaning does nothing.
pub proof fn quitting_stops_the_service(tray: Tray, finished: bool)
    requires
        tray.stage is Idle,
    ensures
        tray.service ==> begins(
            tray,
            MenuChoice::Quit,
            false,
            TrayStage::Quitting,
            TrayAction::StopService,
        ),
        !tray.service ==> begins(
            tray,
            MenuChoice::Quit,
            finished,
            TrayStage::Exited,
            TrayAction::Exit,
        ),
        ({
            let quitting = Tray { stage: TrayStage::Quitting, ..tray };
            &&& tray_next(quitting, TrayEvent::ServiceStopped) == (
                TrayStage::Exited,
                TrayAction::Exit,
            )
            &&& !service_after(quitting, TrayEvent::ServiceStopped)
        }),
        !(tray.service && finished) ==> begins(
            tray,
            MenuChoice::OpenAdmin,
            finished,
            TrayStage::Idle,
            TrayAction::OpenAdmin,
        ),
        !(tray.service && finished) ==> begins(
            tray,
            MenuChoice::Other,
            finished,
            TrayStage::Idle,
            TrayAction::Wait,
        ),
{
}

/// A service that has ended by itself is cleared away first, whatever was chosen; then
/// the choice counts as it would with no service.
pub proof fn finished_service_is_cleared_away(tray: Tray, choice: MenuChoice)
    requires
        tray.stage is Idle,
        tray.service,
    ensures
        begins(
            tray,
            choice,
            true,
            TrayStage::Refreshing { choice },
            TrayAction::StopService,
        ),
        service_after(tray, TrayEvent::Chosen { choice, service_finished: true }),
        checked_after(tray, TrayEvent::Chosen { choice, service_finished: true })
            == tray.menu.autostart_checked,
        ({
            let clearing = Tray { stage: TrayStage::Refreshing { choice }, ..tray };
            let without = Tray { service: false, ..tray };
            let afresh = TrayEvent::Chosen { choice, service_finished: false };
            &&& tray_next(clearing, TrayEvent::ServiceStopped) == tray_next(without, afresh)
            &&& !service_after(clearing, TrayEvent::ServiceStopped)
            &&& checked_after(clearing, TrayEvent::ServiceStopped) == checked_after(without, afresh)
        }),
{
}

/// The tray waits for what it has asked for; anything else changes nothing. No service
/// comes or goes but by the events that say so.
pub proof fn tray_waits_for_what_it_asked(tray: Tray, event: TrayEvent)
    ensures
        ({
            let awaited = match event {
                TrayEvent::Chosen { .. } => tray.stage is Idle,
                TrayEvent::ServiceStopped => tray.stage is Refreshing || tray.stage is Stopping
                    || tray.stage is Quitting,
                TrayEvent::ServiceStarted { .. } => tray.stage is Starting,
                TrayEvent::AutostartRead { .. } => tray.stage is ReadingAutostart,
                TrayEvent::AutostartSet { .. } => tray.stage is SettingAutostart,
            };
            &&& !awaited ==> tray_next(tray, event) == (tray.stage, TrayAction::Wait)
            &&& !awaited ==> service_after(tray, event) == tray.service
            &&& !awaited ==> checked_after(tray, event) == tray.menu.autostart_checked
            &&& event is Chosen || event is AutostartRead || event is AutostartSet
                ==> service_after(tray, event) == tray.service
            &&& !(event is AutostartSet) && tray.menu.autostart_enabled ==> checked_after(
                tray,
                event,
            ) == tray.menu.autostart_checked
        }),
{
}

/// An id that no entry has is no choice.
pub proof fn only_the_ids_of_entries_count(id: Seq<char>)
    ensures
        choice_of(id) is OpenAdmin <==> id == "open_admin"@,
        choice_of(id) is ServiceToggle <==> id == "service_toggle"@,
        choice_of(id) is Autostart <==> id == "autostart"@,
        choice_of(id) is Quit <==> id == "quit"@,
{
    reveal_strlit("open_admin");
    reveal_strlit("service_toggle");
    reveal_strlit("autostart");
    reveal_strlit("quit");
    assert("open_admin"@.len() == 10 && "service_toggle"@.len() == 14);
    assert("autostart"@.len() == 9 && "quit"@.len() == 4);
}

/// The menu tells a running service from one that is stopped, in the state and in what
/// its entry offers; the admin page can be opened only while it runs.
pub proof fn menu_tells_whether_the_service_runs(menu: TrayMenu)
    ensures
        menu.shows(true) <==> {
            &&& menu.status_text@ == "状态：运行中"@
            &&& menu.toggle_text@ == "停止服务"@
            &&& menu.open_admin_enabled
        },
        menu.shows(false) <==> {
            &&& menu.status_text@ == "状态：已停止"@
            &&& menu.toggle_text@ == "启动服务"@
            &&& !menu.open_admin_enabled
        },
        entries().len() == 7,
        entries().last() is Quit,
        entries()[1] is ServiceToggle,
        entries()[3] is OpenAdmin,
        entries()[4] is Autostart,
        entries()[0] is ServiceStatus,
        forall|i: int|
            0 <= i < 7 ==> (#[trigger] entries()[i] == MenuEntry::Separator <==> i == 2 || i == 5),
{
}

} // verus!
