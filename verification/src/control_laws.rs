//! What a client of the control port can rely on, from its line to the reply.

use crate::command::{command_of, Command, CommandError};
use crate::command_laws::asks_for;
use crate::control_server::{client_next, ActionView, ClientEvent, ClientState, SessionTarget};
use crate::device::{AudioState, DeviceError, DeviceRequest, Host, MediaKey};
use crate::net::IpAddress;
use crate::reply::{bit, error_line, ping_line, state_line, status_line, time_line};
use crate::text::{decimal, parsed, parsed_of_decimal};
use vstd::prelude::*;

verus! {

/// What a client is told and what the host is asked, from the line on: the actions
/// that follow each event of a row, and where the client then stands.
pub open spec fn served(host: Host, client: IpAddress, events: Seq<ClientEvent>) -> (
    ClientState,
    Seq<ActionView>,
)
    decreases events.len(),
{
    if events.len() == 0 {
        (ClientState::AwaitLine, Seq::empty())
    } else {
        let (state, actions) = served(host, client, events.drop_last());
        let (next, action) = client_next(host, client, state, events.last());
        (next, actions.push(action))
    }
}

/// The reply tells of success.
pub open spec fn says_ok(action: ActionView) -> bool {
    action matches ActionView::Reply { text } && text.len() >= 2 && text[0] == 'O' && text[1] == 'K'
}

/// The host has carried out what it was asked.
pub open spec fn has_succeeded(event: ClientEvent) -> bool {
    event matches ClientEvent::Device { outcome } && outcome is Ok
}

/// The event is a line that the client sent.
pub open spec fn is_line(event: ClientEvent, line: Seq<char>) -> bool {
    event matches ClientEvent::Line { text: Some(text) } && text@ == line
}

/// On Windows a line that asks for a change has that change as its first action, and
/// then waits for what came of it.
pub proof fn change_is_the_first_action(
    client: IpAddress,
    line: Seq<char>,
    event: ClientEvent,
    volume: u8,
    muted: bool,
)
    requires
        is_line(event, line),
    ensures
        asks_for(line, Command::SetVolume { volume }) && volume <= 100 ==> client_next(
            Host::Windows,
            client,
            ClientState::AwaitLine,
            event,
        ) == (
            ClientState::AwaitDevice,
            ActionView::Device { request: DeviceRequest::SetVolume { percent: volume } },
        ),
        asks_for(line, Command::SetVolume { volume }) && volume > 100 ==> client_next(
            Host::Windows,
            client,
            ClientState::AwaitLine,
            event,
        ) == (
            ClientState::AwaitDevice,
            ActionView::Device { request: DeviceRequest::SetVolume { percent: 100 } },
        ),
        asks_for(line, Command::SetMute { muted }) ==> client_next(
            Host::Windows,
            client,
            ClientState::AwaitLine,
            event,
        ) == (
            ClientState::AwaitDevice,
            ActionView::Device { request: DeviceRequest::SetMute { muted } },
        ),
        asks_for(line, Command::MediaNext) ==> client_next(
            Host::Windows,
            client,
            ClientState::AwaitLine,
            event,
        ) == (
            ClientState::AwaitDevice,
            ActionView::Device { request: DeviceRequest::PressKey { key: MediaKey::NextTrack } },
        ),
        asks_for(line, Command::MediaPrevious) ==> client_next(
            Host::Windows,
            client,
            ClientState::AwaitLine,
            event,
        ) == (
            ClientState::AwaitDevice,
            ActionView::Device { request: DeviceRequest::PressKey { key: MediaKey::PreviousTrack } },
        ),
        asks_for(line, Command::MediaPlayPause) ==> client_next(
            Host::Windows,
            client,
            ClientState::AwaitLine,
            event,
        ) == (
            ClientState::AwaitDevice,
            ActionView::Device { request: DeviceRequest::PressKey { key: MediaKey::PlayPause } },
        ),
{
}

/// A request to change something of the host.
pub open spec fn is_change(command: Command) -> bool {
    ||| command is SetVolume
    ||| command is SetMute
    ||| command is MediaNext
    ||| command is MediaPrevious
    ||| command is MediaPlayPause
}

proof fn errors_are_not_ok(message: Seq<char>)
    ensures
        !says_ok(ActionView::Reply { text: error_line(message) }),
{
    reveal_strlit("ERR ");
    assert(error_line(message)[0] == 'E');
}

proof fn change_run(
    host: Host,
    client: IpAddress,
    line: Seq<char>,
    command: Command,
    events: Seq<ClientEvent>,
)
    requires
        events.len() > 0,
        is_line(events[0], line),
        asks_for(line, command),
        is_change(command),
    ensures
        ({
            let (state, actions) = served(host, client, events);
            let succeeded = exists|j: int|
                1 <= j < events.len() && has_succeeded(#[trigger] events[j]);
            &&& actions.len() == events.len()
            &&& state is AwaitDevice || state is AwaitState || state is Done
            &&& state is AwaitState ==> state == (ClientState::AwaitState { best_effort: false })
                && host is Windows && succeeded
            &&& state is AwaitDevice ==> host is Windows
            &&& forall|i: int|
                0 <= i < actions.len() && says_ok(#[trigger] actions[i]) ==> exists|j: int|
                    1 <= j < i && has_succeeded(#[trigger] events[j])
        }),
    decreases events.len(),
{
    let head = events.drop_last();
    let (state, actions) = served(host, client, events);
    let last = events.len() - 1;
    if last == 0 {
        assert(head =~= Seq::empty());
        assert(events.last() == events[0]);
        assert(actions =~= seq![actions[0]]);
        errors_are_not_ok(DeviceError::VolumeUnsupported.text());
        errors_are_not_ok(DeviceError::KeysUnsupported.text());
        assert(served(host, client, head) == (ClientState::AwaitLine, Seq::<ActionView>::empty()));
    } else {
        assert(head[0] == events[0]);
        change_run(host, client, line, command, head);
        let (before, told) = served(host, client, head);
        let event = events.last();
        assert(events[last] == event);
        assert forall|i: int| 0 <= i < actions.len() && says_ok(#[trigger] actions[i]) implies exists|
            j: int,
        |
            1 <= j < i && has_succeeded(#[trigger] events[j]) by {
            if i < last {
                assert(actions[i] == told[i]);
                let j = choose|j: int| 1 <= j < i && has_succeeded(#[trigger] head[j]);
                assert(events[j] == head[j]);
            } else {
                if let ClientEvent::Device { outcome: Err(error) } = event {
                    errors_are_not_ok(error.text());
                }
                if let ClientEvent::State { reading: Err(error) } = event {
                    errors_are_not_ok(error.text());
                }
                assert(before is AwaitState);
                let j = choose|j: int| 1 <= j < head.len() && has_succeeded(#[trigger] head[j]);
                assert(events[j] == head[j]);
            }
        }
        if state is AwaitState {
            if before is AwaitState {
                let j = choose|j: int| 1 <= j < head.len() && has_succeeded(#[trigger] head[j]);
                assert(events[j] == head[j]);
            } else {
                assert(has_succeeded(events[last]));
            }
        }
    }
}

/// A reply that begins with OK to a line that asks for a change comes only after the
/// host has carried the change out, whatever else happens meanwhile, and on no host
/// that cannot make it.
pub proof fn ok_follows_the_change(
    host: Host,
    client: IpAddress,
    line: Seq<char>,
    command: Command,
    events: Seq<ClientEvent>,
    i: int,
)
    requires
        events.len() > 0,
        is_line(events[0], line),
        asks_for(line, command),
        is_change(command),
        0 <= i < events.len(),
        says_ok(served(host, client, events).1[i]),
    ensures
        exists|j: int| 1 <= j < i && has_succeeded(#[trigger] events[j]),
{
    change_run(host, client, line, command, events);
}

/// Once the host has carried a change out its state is read, and the reply is that
/// state; where it has not, or the reading fails, the reply is the reason.
pub proof fn change_is_answered_with_the_state(
    host: Host,
    client: IpAddress,
    state: AudioState,
    error: DeviceError,
)
    ensures
        client_next(
            Host::Windows,
            client,
            ClientState::AwaitDevice,
            ClientEvent::Device { outcome: Ok(()) },
        ) == (
            ClientState::AwaitState { best_effort: false },
            ActionView::Device { request: DeviceRequest::ReadState },
        ),
        client_next(
            Host::Other,
            client,
            ClientState::AwaitDevice,
            ClientEvent::Device { outcome: Ok(()) },
        ) == (
            ClientState::Done,
            ActionView::Reply {
                text: "ERR "@ + "computer volume control is only supported on Windows"@ + "\n"@,
            },
        ),
        client_next(
            host,
            client,
            ClientState::AwaitState { best_effort: false },
            ClientEvent::State { reading: Ok(state) },
        ) == (ClientState::Done, ActionView::Reply { text: state_line(state) }),
        client_next(
            host,
            client,
            ClientState::AwaitDevice,
            ClientEvent::Device { outcome: Err(error) },
        ) == (ClientState::Done, ActionView::Reply { text: "ERR "@ + error.text() + "\n"@ }),
        client_next(
            host,
            client,
            ClientState::AwaitState { best_effort: false },
            ClientEvent::State { reading: Err(error) },
        ) == (ClientState::Done, ActionView::Reply { text: "ERR "@ + error.text() + "\n"@ }),
{
}

/// A reading that a session or a ping asks for is answered in any case, with silence
/// where there is none.
pub proof fn session_is_answered_in_any_case(
    host: Host,
    client: IpAddress,
    state: AudioState,
    error: DeviceError,
)
    ensures
        client_next(
            host,
            client,
            ClientState::AwaitState { best_effort: true },
            ClientEvent::State { reading: Ok(state) },
        ) == (ClientState::Done, ActionView::Reply { text: state_line(state) }),
        client_next(
            host,
            client,
            ClientState::AwaitState { best_effort: true },
            ClientEvent::State { reading: Err(error) },
        ) == (
            ClientState::Done,
            ActionView::Reply { text: state_line(AudioState { volume: 0, muted: false }) },
        ),
        client_next(
            Host::Windows,
            client,
            ClientState::AwaitSession,
            ClientEvent::SessionStarted,
        ) == (
            ClientState::AwaitState { best_effort: true },
            ActionView::Device { request: DeviceRequest::ReadState },
        ),
        client_next(
            Host::Windows,
            client,
            ClientState::AwaitStop,
            ClientEvent::SessionStopped,
        ) == (
            ClientState::AwaitState { best_effort: true },
            ActionView::Device { request: DeviceRequest::ReadState },
        ),
        client_next(Host::Other, client, ClientState::AwaitSession, ClientEvent::SessionStarted)
            == (
            ClientState::Done,
            ActionView::Reply { text: state_line(AudioState { volume: 0, muted: false }) },
        ),
        client_next(Host::Other, client, ClientState::AwaitStop, ClientEvent::SessionStopped) == (
            ClientState::Done,
            ActionView::Reply { text: state_line(AudioState { volume: 0, muted: false }) },
        ),
{
}

/// Every other request begins with its own work: a session for the address that the
/// client has and the port that it names, the end of the session, the clock, the
/// counters, the responder, or a reading.
pub proof fn request_begins_its_work(
    host: Host,
    client: IpAddress,
    line: Seq<char>,
    event: ClientEvent,
    port: u16,
)
    requires
        is_line(event, line),
    ensures
        asks_for(line, Command::StartUdp { port }) ==> client_next(
            host,
            client,
            ClientState::AwaitLine,
            event,
        ) == (
            ClientState::AwaitSession,
            ActionView::StartSession { target: SessionTarget { address: client, port } },
        ),
        asks_for(line, Command::StopUdp) ==> client_next(
            host,
            client,
            ClientState::AwaitLine,
            event,
        ) == (ClientState::AwaitStop, ActionView::StopSession),
        asks_for(line, Command::StartUdpPing) ==> client_next(
            host,
            client,
            ClientState::AwaitLine,
            event,
        ) == (ClientState::AwaitPing, ActionView::StartPingResponder),
        asks_for(line, Command::ServerTime) ==> client_next(
            host,
            client,
            ClientState::AwaitLine,
            event,
        ) == (ClientState::AwaitClock, ActionView::ReadClock),
        asks_for(line, Command::Status) ==> client_next(
            host,
            client,
            ClientState::AwaitLine,
            event,
        ) == (ClientState::AwaitStatus, ActionView::ReadStatus),
        asks_for(line, Command::Get) ==> client_next(
            Host::Windows,
            client,
            ClientState::AwaitLine,
            event,
        ) == (
            ClientState::AwaitState { best_effort: false },
            ActionView::Device { request: DeviceRequest::ReadState },
        ),
        asks_for(line, Command::Ping) ==> client_next(
            Host::Windows,
            client,
            ClientState::AwaitLine,
            event,
        ) == (
            ClientState::AwaitState { best_effort: true },
            ActionView::Device { request: DeviceRequest::ReadState },
        ),
{
}

/// Where there is no volume control and there are no media keys, a client is told so
/// at once; a ping is answered all the same.
pub proof fn other_hosts_refuse_at_once(
    client: IpAddress,
    line: Seq<char>,
    event: ClientEvent,
    command: Command,
)
    requires
        is_line(event, line),
        asks_for(line, command),
    ensures
        command is Get || command is SetVolume || command is SetMute ==> client_next(
            Host::Other,
            client,
            ClientState::AwaitLine,
            event,
        ) == (
            ClientState::Done,
            ActionView::Reply {
                text: "ERR "@ + "computer volume control is only supported on Windows"@ + "\n"@,
            },
        ),
        command is MediaNext || command is MediaPrevious || command is MediaPlayPause
            ==> client_next(Host::Other, client, ClientState::AwaitLine, event) == (
            ClientState::Done,
            ActionView::Reply { text: "ERR "@ + "media keys are only supported on Windows"@ + "\n"@ },
        ),
        command is Ping ==> client_next(Host::Other, client, ClientState::AwaitLine, event) == (
            ClientState::Done,
            ActionView::Reply { text: state_line(AudioState { volume: 0, muted: false }) },
        ),
{
}

/// What was read is what is told: the port of the responder, the clock, the counters,
/// or why there is no session. A client that hangs up, or whose responder could not be
/// started, is hung up on; a line that is no request is refused with the reason.
pub proof fn reading_is_told(
    host: Host,
    client: IpAddress,
    port: u16,
    unix_ms: u64,
    session: bool,
    active: bool,
    text: String,
    error: CommandError,
)
    ensures
        client_next(
            host,
            client,
            ClientState::AwaitPing,
            ClientEvent::Ping { port: Some(port) },
        ) == (ClientState::Done, ActionView::Reply { text: ping_line(port) }),
        client_next(host, client, ClientState::AwaitPing, ClientEvent::Ping { port: None }) == (
            ClientState::Done,
            ActionView::Close,
        ),
        client_next(host, client, ClientState::AwaitLine, ClientEvent::Line { text: None }) == (
            ClientState::Done,
            ActionView::Close,
        ),
        client_next(host, client, ClientState::AwaitClock, ClientEvent::Clock { unix_ms }) == (
            ClientState::Done,
            ActionView::Reply { text: time_line(unix_ms) },
        ),
        client_next(
            host,
            client,
            ClientState::AwaitStatus,
            ClientEvent::Status { session, active, target_addr: text },
        ) == (ClientState::Done, ActionView::Reply { text: status_line(session, active, text@) }),
        client_next(
            host,
            client,
            ClientState::AwaitSession,
            ClientEvent::SessionFailed { message: text },
        ) == (ClientState::Done, ActionView::Reply { text: "ERR "@ + text@ + "\n"@ }),
        command_of(text@) == Err::<Command, CommandError>(error) ==> client_next(
            host,
            client,
            ClientState::AwaitLine,
            ClientEvent::Line { text: Some(text) },
        ) == (ClientState::Done, ActionView::Reply { text: "ERR "@ + error.text() + "\n"@ }),
{
}

/// A client waits for what it has asked for; anything else that happens changes nothing
/// and asks for nothing.
pub proof fn client_waits_for_what_it_asked(
    host: Host,
    client: IpAddress,
    state: ClientState,
    event: ClientEvent,
)
    ensures
        client_next(host, client, state, event).1 is Wait <==> !(match event {
            ClientEvent::Line { .. } => state is AwaitLine,
            ClientEvent::Ping { .. } => state is AwaitPing,
            ClientEvent::Clock { .. } => state is AwaitClock,
            ClientEvent::Status { .. } => state is AwaitStatus,
            ClientEvent::SessionStarted => state is AwaitSession,
            ClientEvent::SessionFailed { .. } => state is AwaitSession,
            ClientEvent::SessionStopped => state is AwaitStop,
            ClientEvent::Device { .. } => state is AwaitDevice,
            ClientEvent::State { .. } => state is AwaitState,
        }),
        client_next(host, client, state, event).1 is Wait ==> client_next(
            host,
            client,
            state,
            event,
        ).0 == state,
{
    if let ClientEvent::Line { text: Some(line) } = event {
        assert(command_of(line@) is Ok || command_of(line@) is Err);
    }
    if let ClientEvent::Device { outcome } = event {
        if let Ok(unit) = outcome {
            assert(unit == ());
        }
    }
}

/// The line of a state names its volume in decimal, its mute as a digit, and the
/// length of a frame.
pub proof fn state_is_told_in_full(volume: u8)
    ensures
        state_line(AudioState { volume, muted: true }) == "OK volume="@ + decimal(volume as nat)
            + " muted=1 frame_ms=10\n"@,
        state_line(AudioState { volume, muted: false }) == "OK volume="@ + decimal(volume as nat)
            + " muted=0 frame_ms=10\n"@,
        parsed(decimal(volume as nat), 255) == Some(volume as nat),
{
    parsed_of_decimal(volume as nat, 255);
    ten();
    reveal_strlit("OK volume=");
    reveal_strlit(" muted=");
    reveal_strlit("1");
    reveal_strlit("0");
    reveal_strlit(" frame_ms=");
    reveal_strlit("\n");
    reveal_strlit(" muted=1 frame_ms=10\n");
    reveal_strlit(" muted=0 frame_ms=10\n");
    assert(" muted="@ + "1"@ + " frame_ms="@ + seq!['1', '0'] + "\n"@
        =~= " muted=1 frame_ms=10\n"@);
    assert(" muted="@ + "0"@ + " frame_ms="@ + seq!['1', '0'] + "\n"@
        =~= " muted=0 frame_ms=10\n"@);
    let start = "OK volume="@ + decimal(volume as nat);
    assert(state_line(AudioState { volume, muted: true }) =~= start + (" muted="@ + "1"@
        + " frame_ms="@ + seq!['1', '0'] + "\n"@));
    assert(state_line(AudioState { volume, muted: false }) =~= start + (" muted="@ + "0"@
        + " frame_ms="@ + seq!['1', '0'] + "\n"@));
}

proof fn ten()
    ensures
        decimal(10) == seq!['1', '0'],
{
    reveal_with_fuel(decimal, 3);
    assert(decimal(10) =~= seq!['1', '0']);
}

/// The port and the clock are told in decimal.
pub proof fn port_and_clock_are_told_in_full(port: u16, unix_ms: u64)
    ensures
        ping_line(port) == "OK udp_ping_port="@ + decimal(port as nat) + "\n"@,
        time_line(unix_ms) == "OK server_unix_ms="@ + decimal(unix_ms as nat) + "\n"@,
        parsed(decimal(port as nat), 65535) == Some(port as nat),
        parsed(decimal(unix_ms as nat), 0xFFFF_FFFF_FFFF_FFFF) == Some(unix_ms as nat),
{
    parsed_of_decimal(port as nat, 65535);
    parsed_of_decimal(unix_ms as nat, 0xFFFF_FFFF_FFFF_FFFF);
}

/// The line of the counters tells the session before the stream, each as a digit, then
/// the target as it is.
pub proof fn status_is_told_in_full(session: bool, active: bool, target_addr: Seq<char>)
    ensures
        status_line(session, active, target_addr) == "OK running=1 udp_session="@ + seq![
            if session {
                '1'
            } else {
                '0'
            },
        ] + " audio_active="@ + seq![
            if active {
                '1'
            } else {
                '0'
            },
        ] + " target_addr="@ + target_addr
            + " frame_ms=10 protocol=tcp-control-udp-pcm-fec\n"@,
{
    ten();
    reveal_strlit("1");
    reveal_strlit("0");
    assert("1"@ =~= seq!['1']);
    assert("0"@ =~= seq!['0']);
    reveal_strlit(" frame_ms=");
    reveal_strlit(" protocol=");
    reveal_strlit("tcp-control-udp-pcm-fec");
    reveal_strlit("\n");
    reveal_strlit(" frame_ms=10 protocol=tcp-control-udp-pcm-fec\n");
    let tail = " frame_ms="@ + seq!['1', '0'] + " protocol="@ + "tcp-control-udp-pcm-fec"@ + "\n"@;
    assert(tail =~= " frame_ms=10 protocol=tcp-control-udp-pcm-fec\n"@);
    let start = "OK running=1 udp_session="@ + bit(session) + " audio_active="@ + bit(active)
        + " target_addr="@ + target_addr;
    assert(status_line(session, active, target_addr) =~= start + tail);
}

} // verus!
