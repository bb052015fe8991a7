//! The menu behind the tray icon: what it shows, and what choosing an entry does.

use crate::text::{chars_of, same_text};
use vstd::prelude::*;

verus! {

pub const OPEN_ADMIN_ID: &'static str = "open_admin";

pub const SERVICE_TOGGLE_ID: &'static str = "service_toggle";

pub const AUTOSTART_ID: &'static str = "autostart";

pub const QUIT_ID: &'static str = "quit";

pub const OPEN_ADMIN_TEXT: &'static str = "打开管理页面";

pub const AUTOSTART_TEXT: &'static str = "开机启动";

pub const QUIT_TEXT: &'static str = "退出";

pub const TOOLTIP: &'static str = "Audio Link";

/// The entries from top to bottom.
#[derive(Clone, Copy, PartialEq, Eq, Structural)]
pub enum MenuEntry {
    ServiceStatus,
    ServiceToggle,
    Separator,
    OpenAdmin,
    Autostart,
    Quit,
}

pub open spec fn entries() -> Seq<MenuEntry> {
    seq![
        MenuEntry::ServiceStatus,
        MenuEntry::ServiceToggle,
        MenuEntry::Separator,
        MenuEntry::OpenAdmin,
        MenuEntry::Autostart,
        MenuEntry::Separator,
        MenuEntry::Quit,
    ]
}

pub fn menu_entries() -> (r: Vec<MenuEntry>)
    ensures
        r@ == entries(),
{
    let out: Vec<MenuEntry> = vec![
        MenuEntry::ServiceStatus,
        MenuEntry::ServiceToggle,
        MenuEntry::Separator,
        MenuEntry::OpenAdmin,
        MenuEntry::Autostart,
        MenuEntry::Separator,
        MenuEntry::Quit,
    ];
    assert(out@ =~= entries());
    out
}

/// The entry that was chosen.
#[derive(Clone, Copy, PartialEq, Eq, Structural)]
pub enum MenuChoice {
    OpenAdmin,
    ServiceToggle,
    Autostart,
    Quit,
    /// An entry that does nothing.
    Other,
}

pub open spec fn choice_of(id: Seq<char>) -> MenuChoice {
    if id == OPEN_ADMIN_ID@ {
        MenuChoice::OpenAdmin
    } else if id == SERVICE_TOGGLE_ID@ {
        MenuChoice::ServiceToggle
    } else if id == AUTOSTART_ID@ {
        MenuChoice::Autostart
    } else if id == QUIT_ID@ {
        MenuChoice::Quit
    } else {
        MenuChoice::Other
    }
}

/// The entry with this id.
pub fn menu_choice(id: &str) -> (r: MenuChoice)
    ensures
        r == choice_of(id@),
{
    let id: Vec<char> = chars_of(id);
    if same_text(id.as_slice(), OPEN_ADMIN_ID) {
        MenuChoice::OpenAdmin
    } else if same_text(id.as_slice(), SERVICE_TOGGLE_ID) {
        MenuChoice::ServiceToggle
    } else if same_text(id.as_slice(), AUTOSTART_ID) {
        MenuChoice::Autostart
    } else if same_text(id.as_slice(), QUIT_ID) {
        MenuChoice::Quit
    } else {
        MenuChoice::Other
    }
}

pub open spec fn status_text(running: bool) -> Seq<char> {
    if running {
        "状态：运行中"@
    } else {
        "状态：已停止"@
    }
}

pub open spec fn toggle_text(running: bool) -> Seq<char> {
    if running {
        "停止服务"@
    } else {
        "启动服务"@
    }
}

pub fn service_status_text(running: bool) -> (r: &'static str)
    ensures
        r@ == status_text(running),
{
    if running {
        "状态：运行中"
    } else {
        "状态：已停止"
    }
}

pub fn service_toggle_text(running: bool) -> (r: &'static str)
    ensures
        r@ == toggle_text(running),
{
    if running {
        "停止服务"
    } else {
        "启动服务"
    }
}

/// What the entries show.
#[derive(Clone, Copy)]
pub struct TrayMenu {
    pub status_text: &'static str,
    pub toggle_text: &'static str,
    pub open_admin_enabled: bool,
    pub autostart_enabled: bool,
    pub autostart_checked: bool,
}

impl TrayMenu {
    /// The entries on the service say whether it runs.
    pub open spec fn shows(self, running: bool) -> bool {
        &&& self.status_text@ == status_text(running)
        &&& self.toggle_text@ == toggle_text(running)
        &&& self.open_admin_enabled == running
    }
}

/// What the tray waits for.
#[derive(Clone, Copy, PartialEq, Eq, Structural)]
pub enum TrayStage {
    Idle,
    /// A service that had ended by itself is cleared away before the choice counts.
    Refreshing { choice: MenuChoice },
    Stopping,
    Starting,
    ReadingAutostart,
    SettingAutostart { enable: bool },
    Quitting,
    Exited,
}

/// What has happened.
#[derive(Clone, Copy, PartialEq, Eq, Structural)]
pub enum TrayEvent {
    /// An entry was chosen; `service_finished` where the service has ended by itself.
    Chosen { choice: MenuChoice, service_finished: bool },
    ServiceStopped,
    ServiceStarted { running: bool },
    /// Whether the program starts with the session, none where that is not known.
    AutostartRead { enabled: Option<bool> },
    AutostartSet { succeeded: bool },
}

/// What is to be done.
#[derive(Clone, Copy, PartialEq, Eq, Structural)]
pub enum TrayAction {
    Wait,
    StopService,
    StartService,
    OpenAdmin,
    ReadAutostart,
    SetAutostart { enable: bool },
    Exit,
}

/// The tray: what it waits for, whether it holds a service, and its menu.
#[derive(Clone, Copy)]
pub struct Tray {
    pub stage: TrayStage,
    pub service: bool,
    pub menu: TrayMenu,
}

impl Tray {
    /// While the program runs the menu says what is true of the service, and the
    /// program does not exit from a running one.
    pub open spec fn wf(self) -> bool {
        &&& !(self.stage is Exited) ==> self.menu.shows(self.service)
        &&& self.stage is Exited ==> !self.service
    }
}

/// The menu of a program that has just started.
pub fn run(service_started: bool, autostart_available: bool, autostart_on: Option<bool>) -> (r: Tray)
    ensures
        r.wf(),
        r.stage is Idle,
        r.service == service_started,
        r.menu.autostart_enabled == autostart_available,
        r.menu.autostart_checked == (autostart_available && autostart_on == Some(true)),
{
    let on: bool = match autostart_on {
        Some(on) => on,
        None => false,
    };
    Tray {
        stage: TrayStage::Idle,
        service: service_started,
        menu: TrayMenu {
            status_text: service_status_text(service_started),
            toggle_text: service_toggle_text(service_started),
            open_admin_enabled: service_started,
            autostart_enabled: autostart_available,
            autostart_checked: autostart_available && on,
        },
    }
}

/// What a choice begins with.
pub open spec fn begun(service: bool, autostart_available: bool, choice: MenuChoice) -> (
    TrayStage,
    TrayAction,
) {
    match choice {
        MenuChoice::OpenAdmin => (TrayStage::Idle, TrayAction::OpenAdmin),
        MenuChoice::ServiceToggle => if service {
            (TrayStage::Stopping, TrayAction::StopService)
        } else {
            (TrayStage::Starting, TrayAction::StartService)
        },
        MenuChoice::Autostart => if autostart_available {
            (TrayStage::ReadingAutostart, TrayAction::ReadAutostart)
        } else {
            (TrayStage::Idle, TrayAction::Wait)
        },
        MenuChoice::Quit => if service {
            (TrayStage::Quitting, TrayAction::StopService)
        } else {
            (TrayStage::Exited, TrayAction::Exit)
        },
        MenuChoice::Other => (TrayStage::Idle, TrayAction::Wait),
    }
}

/// The stage and the action after an event. One that is not awaited changes nothing.
pub open spec fn tray_next(tray: Tray, event: TrayEvent) -> (TrayStage, TrayAction) {
    match (tray.stage, event) {
        (TrayStage::Idle, TrayEvent::Chosen { choice, service_finished }) => if tray.service
            && service_finished {
            (TrayStage::Refreshing { choice }, TrayAction::StopService)
        } else {
            begun(tray.service, tray.menu.autostart_enabled, choice)
        },
        (TrayStage::Refreshing { choice }, TrayEvent::ServiceStopped) => begun(
            false,
            tray.menu.autostart_enabled,
            choice,
        ),
        (TrayStage::Stopping, TrayEvent::ServiceStopped) => (TrayStage::Idle, TrayAction::Wait),
        (TrayStage::Starting, TrayEvent::ServiceStarted { .. }) => (
            TrayStage::Idle,
            TrayAction::Wait,
        ),
        (TrayStage::ReadingAutostart, TrayEvent::AutostartRead { enabled }) => match enabled {
            Some(enabled) => (
                TrayStage::SettingAutostart { enable: !enabled },
                TrayAction::SetAutostart { enable: !enabled },
            ),
            None => (TrayStage::Idle, TrayAction::Wait),
        },
        (TrayStage::SettingAutostart { .. }, TrayEvent::AutostartSet { .. }) => (
            TrayStage::Idle,
            TrayAction::Wait,
        ),
        (TrayStage::Quitting, TrayEvent::ServiceStopped) => (TrayStage::Exited, TrayAction::Exit),
        _ => (tray.stage, TrayAction::Wait),
    }
}

/// The tray holds a service after an event.
pub open spec fn service_after(tray: Tray, event: TrayEvent) -> bool {
    match (tray.stage, event) {
        (
            TrayStage::Refreshing { .. } | TrayStage::Stopping | TrayStage::Quitting,
            TrayEvent::ServiceStopped,
        ) => false,
        (TrayStage::Starting, TrayEvent::ServiceStarted { running }) => running,
        _ => tray.service,
    }
}

/// The mark at the autostart entry after an event. It changes when the setting
/// did, and goes where there is no such setting.
pub open spec fn checked_after(tray: Tray, event: TrayEvent) -> bool {
    match (tray.stage, event) {
        (TrayStage::SettingAutostart { enable }, TrayEvent::AutostartSet { succeeded: true }) => enable,
        (
            TrayStage::Idle,
            TrayEvent::Chosen { choice: MenuChoice::Autostart, service_finished },
        ) if !(tray.service && service_finished) => tray.menu.autostart_checked
            && tray.menu.autostart_enabled,
        (TrayStage::Refreshing { choice: MenuChoice::Autostart }, TrayEvent::ServiceStopped) => {
            tray.menu.autostart_checked && tray.menu.autostart_enabled
        },
        _ => tray.menu.autostart_checked,
    }
}

/// Shows in the menu whether the service runs.
pub fn update_service_menu(menu: &mut TrayMenu, running: bool)
    ensures
        final(menu).shows(running),
        final(menu).autostart_enabled == old(menu).autostart_enabled,
        final(menu).autostart_checked == old(menu).autostart_checked,
{
    menu.status_text = service_status_text(running);
    menu.toggle_text = service_toggle_text(running);
    menu.open_admin_enabled = running;
}

fn begin(menu: &mut TrayMenu, service: bool, choice: MenuChoice) -> (r: (TrayStage, TrayAction))
    ensures
        r == begun(service, old(menu).autostart_enabled, choice),
        *final(menu) == (TrayMenu {
            autostart_checked: old(menu).autostart_checked && !(choice is Autostart && !old(
                menu,
            ).autostart_enabled),
            ..*old(menu)
        }),
{
    match choice {
        MenuChoice::OpenAdmin => (TrayStage::Idle, TrayAction::OpenAdmin),
        MenuChoice::ServiceToggle => toggle_service(service),
        MenuChoice::Autostart => {
            if menu.autostart_enabled {
                (TrayStage::ReadingAutostart, TrayAction::ReadAutostart)
            } else {
                menu.autostart_checked = false;
                (TrayStage::Idle, TrayAction::Wait)
            }
        },
        MenuChoice::Quit => {
            if service {
                (TrayStage::Quitting, TrayAction::StopService)
            } else {
                (TrayStage::Exited, TrayAction::Exit)
            }
        },
        MenuChoice::Other => (TrayStage::Idle, TrayAction::Wait),
    }
}

/// A running service is stopped, and one that does not run is started.
pub fn toggle_service(service: bool) -> (r: (TrayStage, TrayAction))
    ensures
        r == begun(service, false, MenuChoice::ServiceToggle),
{
    if service {
        (TrayStage::Stopping, TrayAction::StopService)
    } else {
        (TrayStage::Starting, TrayAction::StartService)
    }
}

/// The setting is turned round, where it can be read.
pub fn toggle_autostart(enabled: Option<bool>) -> (r: (TrayStage, TrayAction))
    ensures
        r == match enabled {
            Some(enabled) => (
                TrayStage::SettingAutostart { enable: !enabled },
                TrayAction::SetAutostart { enable: !enabled },
            ),
            None => (TrayStage::Idle, TrayAction::Wait),
        },
{
    match enabled {
        Some(enabled) => (
            TrayStage::SettingAutostart { enable: !enabled },
            TrayAction::SetAutostart { enable: !enabled },
        ),
        None => (TrayStage::Idle, TrayAction::Wait),
    }
}

/// Takes the tray one step on.
pub fn run_tray_event_loop(tray: &mut Tray, event: TrayEvent) -> (r: TrayAction)
    requires
        old(tray).wf(),
    ensures
        final(tray).wf(),
        (final(tray).stage, r) == tray_next(*old(tray), event),
        final(tray).service == service_after(*old(tray), event),
        if old(tray).stage is Quitting || old(tray).stage is Exited {
            final(tray).menu == old(tray).menu
        } else {
            final(tray).menu.shows(service_after(*old(tray), event))
        },
        final(tray).menu.autostart_enabled == old(tray).menu.autostart_enabled,
        final(tray).menu.autostart_checked == checked_after(*old(tray), event),
{
    let (stage, action): (TrayStage, TrayAction) = match (tray.stage, event) {
        (TrayStage::Idle, TrayEvent::Chosen { choice, service_finished }) => {
            if tray.service && service_finished {
                (TrayStage::Refreshing { choice }, TrayAction::StopService)
            } else {
                begin(&mut tray.menu, tray.service, choice)
            }
        },
        (TrayStage::Refreshing { choice }, TrayEvent::ServiceStopped) => {
            tray.service = false;
            update_service_menu(&mut tray.menu, false);
            begin(&mut tray.menu, false, choice)
        },
        (TrayStage::Stopping, TrayEvent::ServiceStopped) => {
            tray.service = false;
            update_service_menu(&mut tray.menu, false);
            (TrayStage::Idle, TrayAction::Wait)
        },
        (TrayStage::Starting, TrayEvent::ServiceStarted { running }) => {
            tray.service = running;
            update_service_menu(&mut tray.menu, running);
            (TrayStage::Idle, TrayAction::Wait)
        },
        (TrayStage::ReadingAutostart, TrayEvent::AutostartRead { enabled }) => toggle_autostart(
            enabled,
        ),
        (TrayStage::SettingAutostart { enable }, TrayEvent::AutostartSet { succeeded }) => {
            if succeeded {
                tray.menu.autostart_checked = enable;
            }
            (TrayStage::Idle, TrayAction::Wait)
        },
        (TrayStage::Quitting, TrayEvent::ServiceStopped) => {
            tray.service = false;
            (TrayStage::Exited, TrayAction::Exit)
        },
        (stage, _) => (stage, TrayAction::Wait),
    };
    tray.stage = stage;
    action
}

/// Every entry that can be chosen has an id of its own.
pub proof fn ids_are_told_apart()
    ensures
        choice_of(OPEN_ADMIN_ID@) is OpenAdmin,
        choice_of(SERVICE_TOGGLE_ID@) is ServiceToggle,
        choice_of(AUTOSTART_ID@) is Autostart,
        choice_of(QUIT_ID@) is Quit,
{
    reveal_strlit("open_admin");
    reveal_strlit("service_toggle");
    reveal_strlit("autostart");
    reveal_strlit("quit");
    assert(OPEN_ADMIN_ID@.len() == 10);
    assert(SERVICE_TOGGLE_ID@.len() == 14);
    assert(AUTOSTART_ID@.len() == 9);
    assert(QUIT_ID@.len() == 4);
}

/// The program exits only where it is asked to, and never with a service still
/// running.
pub proof fn exit_leaves_no_service(tray: Tray, event: TrayEvent)
    requires
        tray.wf(),
        tray_next(tray, event).1 is Exit,
    ensures
        !service_after(tray, event),
        match tray.stage {
            TrayStage::Idle => event->choice is Quit,
            TrayStage::Refreshing { choice } => choice is Quit,
            TrayStage::Quitting => true,
            _ => false,
        },
{
}

/// A service that ended by itself counts as stopped before the choice is looked
/// at: choosing to toggle it starts it again.
pub proof fn finished_service_is_restarted(tray: Tray)
    requires
        tray.wf(),
        tray.stage is Idle,
        tray.service,
    ensures
        tray_next(
            tray,
            TrayEvent::Chosen { choice: MenuChoice::ServiceToggle, service_finished: true },
        ) == (
            TrayStage::Refreshing { choice: MenuChoice::ServiceToggle },
            TrayAction::StopService,
        ),
        tray_next(
            Tray { stage: TrayStage::Refreshing { choice: MenuChoice::ServiceToggle }, ..tray },
            TrayEvent::ServiceStopped,
        ) == (TrayStage::Starting, TrayAction::StartService),
{
}

} // verus!
