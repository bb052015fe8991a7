//! How the control port serves a client: one line in, what it asks of the
//! host, one line out.

use crate::command::{command_of, parse_command, Command, CommandError};
use crate::device::{
    best_effort, best_effort_audio_state, get_state, key_request, media_next, media_play_pause,
    media_previous, percent, set_mute, set_volume, volume_request, AudioState, DeviceError,
    DeviceRequest, Host, MediaKey,
};
use crate::net::IpAddress;
use crate::reply::{
    error_line, error_reply, ping_line, ping_reply, server_status_response, state_line,
    state_reply, status_line, time_line, time_reply,
};
use vstd::prelude::*;

verus! {

/// What a client is waiting for.
#[derive(Clone, Copy, PartialEq, Eq, Structural)]
pub enum ClientState {
    AwaitLine,
    AwaitPing,
    AwaitClock,
    AwaitStatus,
    AwaitSession,
    AwaitStop,
    AwaitDevice,
    /// Where `best_effort` is set, a state that cannot be read is made up.
    AwaitState { best_effort: bool },
    Done,
}

/// What has happened.
pub enum ClientEvent {
    /// The line that was sent, none where the client hung up without one.
    Line { text: Option<String> },
    /// The port of the latency responder, none where it could not be started.
    Ping { port: Option<u16> },
    Clock { unix_ms: u64 },
    Status { session: bool, active: bool, target_addr: String },
    SessionStarted,
    SessionFailed { message: String },
    SessionStopped,
    Device { outcome: Result<(), DeviceError> },
    State { reading: Result<AudioState, DeviceError> },
}

/// Where the audio of a session goes.
#[derive(Clone, Copy, PartialEq, Eq, Structural)]
pub struct SessionTarget {
    pub address: IpAddress,
    pub port: u16,
}

/// What is to be done next.
pub enum ClientAction {
    /// Nothing: the event was not awaited.
    Wait,
    /// Hang up without a reply.
    Close,
    StartPingResponder,
    ReadClock,
    ReadStatus,
    StartSession { target: SessionTarget },
    StopSession,
    Device { request: DeviceRequest },
    /// Send the line and hang up.
    Reply { text: String },
}

/// An action, with the characters of its reply.
pub enum ActionView {
    Wait,
    Close,
    StartPingResponder,
    ReadClock,
    ReadStatus,
    StartSession { target: SessionTarget },
    StopSession,
    Device { request: DeviceRequest },
    Reply { text: Seq<char> },
}

impl View for ClientAction {
    type V = ActionView;

    open spec fn view(&self) -> ActionView {
        match self {
            ClientAction::Wait => ActionView::Wait,
            ClientAction::Close => ActionView::Close,
            ClientAction::StartPingResponder => ActionView::StartPingResponder,
            ClientAction::ReadClock => ActionView::ReadClock,
            ClientAction::ReadStatus => ActionView::ReadStatus,
            ClientAction::StartSession { target } => ActionView::StartSession { target: *target },
            ClientAction::StopSession => ActionView::StopSession,
            ClientAction::Device { request } => ActionView::Device { request: *request },
            ClientAction::Reply { text } => ActionView::Reply { text: text@ },
        }
    }
}

/// The last step: a line for the client.
pub open spec fn replied(text: Seq<char>) -> (ClientState, ActionView) {
    (ClientState::Done, ActionView::Reply { text })
}

/// A device request that comes before the reply, or the reason why there is none.
pub open spec fn device_asked(request: Result<DeviceRequest, DeviceError>) -> (
    ClientState,
    ActionView,
) {
    match request {
        Ok(request) => (ClientState::AwaitDevice, ActionView::Device { request }),
        Err(error) => replied(error_line(error.text())),
    }
}

/// The reply to a reading of volume and mute.
pub open spec fn state_replied(reading: Result<AudioState, DeviceError>, best: bool) -> (
    ClientState,
    ActionView,
) {
    match reading {
        Ok(state) => replied(state_line(state)),
        Err(error) => if best {
            replied(state_line(best_effort(reading)))
        } else {
            replied(error_line(error.text()))
        },
    }
}

/// Volume and mute are read, where the host has them.
pub open spec fn state_asked(host: Host, best: bool) -> (ClientState, ActionView) {
    match volume_request(host, DeviceRequest::ReadState) {
        Ok(request) => (
            ClientState::AwaitState { best_effort: best },
            ActionView::Device { request },
        ),
        Err(error) => state_replied(Err(error), best),
    }
}

/// The first step for a request.
pub open spec fn command_begun(host: Host, client: IpAddress, command: Command) -> (
    ClientState,
    ActionView,
) {
    match command {
        Command::StartUdpPing => (ClientState::AwaitPing, ActionView::StartPingResponder),
        Command::ServerTime => (ClientState::AwaitClock, ActionView::ReadClock),
        Command::Status => (ClientState::AwaitStatus, ActionView::ReadStatus),
        Command::Get => state_asked(host, false),
        Command::Ping => state_asked(host, true),
        Command::StartUdp { port } => (
            ClientState::AwaitSession,
            ActionView::StartSession { target: SessionTarget { address: client, port } },
        ),
        Command::StopUdp => (ClientState::AwaitStop, ActionView::StopSession),
        Command::SetVolume { volume } => device_asked(
            volume_request(host, DeviceRequest::SetVolume { percent: percent(volume) }),
        ),
        Command::SetMute { muted } => device_asked(
            volume_request(host, DeviceRequest::SetMute { muted }),
        ),
        Command::MediaNext => device_asked(key_request(host, MediaKey::NextTrack)),
        Command::MediaPrevious => device_asked(key_request(host, MediaKey::PreviousTrack)),
        Command::MediaPlayPause => device_asked(key_request(host, MediaKey::PlayPause)),
    }
}

/// The step after `event`. An event that is not awaited changes nothing.
pub open spec fn client_next(
    host: Host,
    client: IpAddress,
    state: ClientState,
    event: ClientEvent,
) -> (ClientState, ActionView) {
    match (state, event) {
        (ClientState::AwaitLine, ClientEvent::Line { text: None }) => (
            ClientState::Done,
            ActionView::Close,
        ),
        (ClientState::AwaitLine, ClientEvent::Line { text: Some(line) }) => match command_of(
            line@,
        ) {
            Ok(command) => command_begun(host, client, command),
            Err(error) => replied(error_line(error.text())),
        },
        (ClientState::AwaitPing, ClientEvent::Ping { port: Some(port) }) => replied(
            ping_line(port),
        ),
        (ClientState::AwaitPing, ClientEvent::Ping { port: None }) => (
            ClientState::Done,
            ActionView::Close,
        ),
        (ClientState::AwaitClock, ClientEvent::Clock { unix_ms }) => replied(time_line(unix_ms)),
        (ClientState::AwaitStatus, ClientEvent::Status { session, active, target_addr }) => replied(
            status_line(session, active, target_addr@),
        ),
        (ClientState::AwaitSession, ClientEvent::SessionStarted) => state_asked(host, true),
        (ClientState::AwaitSession, ClientEvent::SessionFailed { message }) => replied(
            error_line(message@),
        ),
        (ClientState::AwaitStop, ClientEvent::SessionStopped) => state_asked(host, true),
        (ClientState::AwaitDevice, ClientEvent::Device { outcome: Ok(()) }) => state_asked(
            host,
            false,
        ),
        (ClientState::AwaitDevice, ClientEvent::Device { outcome: Err(error) }) => replied(
            error_line(error.text()),
        ),
        (ClientState::AwaitState { best_effort }, ClientEvent::State { reading }) => state_replied(
            reading,
            best_effort,
        ),
        _ => (state, ActionView::Wait),
    }
}

fn reply(text: String) -> (r: (ClientState, ClientAction))
    ensures
        (r.0, r.1@) == replied(text@),
{
    (ClientState::Done, ClientAction::Reply { text })
}

fn ask_device(request: Result<DeviceRequest, DeviceError>) -> (r: (ClientState, ClientAction))
    ensures
        (r.0, r.1@) == device_asked(request),
{
    match request {
        Ok(request) => (ClientState::AwaitDevice, ClientAction::Device { request }),
        Err(error) => reply(error_reply(error.message())),
    }
}

fn reply_state(reading: Result<AudioState, DeviceError>, best: bool) -> (r: (
    ClientState,
    ClientAction,
))
    ensures
        (r.0, r.1@) == state_replied(reading, best),
{
    match reading {
        Ok(state) => reply(state_reply(state)),
        Err(error) => if best {
            reply(state_reply(best_effort_audio_state(reading)))
        } else {
            reply(error_reply(error.message()))
        },
    }
}

fn ask_state(host: Host, best: bool) -> (r: (ClientState, ClientAction))
    ensures
        (r.0, r.1@) == state_asked(host, best),
{
    match get_state(host) {
        Ok(request) => (
            ClientState::AwaitState { best_effort: best },
            ClientAction::Device { request },
        ),
        Err(error) => reply_state(Err(error), best),
    }
}

/// Takes the first step for a request.
pub fn handle_command(host: Host, client: IpAddress, command: Command) -> (r: (
    ClientState,
    ClientAction,
))
    ensures
        (r.0, r.1@) == command_begun(host, client, command),
{
    match command {
        Command::StartUdpPing => (ClientState::AwaitPing, ClientAction::StartPingResponder),
        Command::ServerTime => (ClientState::AwaitClock, ClientAction::ReadClock),
        Command::Status => (ClientState::AwaitStatus, ClientAction::ReadStatus),
        Command::Get => ask_state(host, false),
        Command::Ping => ask_state(host, true),
        Command::StartUdp { port } => (
            ClientState::AwaitSession,
            ClientAction::StartSession { target: SessionTarget { address: client, port } },
        ),
        Command::StopUdp => (ClientState::AwaitStop, ClientAction::StopSession),
        Command::SetVolume { volume } => ask_device(set_volume(host, volume)),
        Command::SetMute { muted } => ask_device(set_mute(host, muted)),
        Command::MediaNext => ask_device(media_next(host)),
        Command::MediaPrevious => ask_device(media_previous(host)),
        Command::MediaPlayPause => ask_device(media_play_pause(host)),
    }
}

/// Serves the client at the address `client` by one step: what it waits for after
/// `event`, and what is to be done for it.
pub fn handle_client(
    host: Host,
    client: IpAddress,
    state: ClientState,
    event: ClientEvent,
) -> (r: (ClientState, ClientAction))
    ensures
        (r.0, r.1@) == client_next(host, client, state, event),
{
    match (state, event) {
        (ClientState::AwaitLine, ClientEvent::Line { text: None }) => (
            ClientState::Done,
            ClientAction::Close,
        ),
        (ClientState::AwaitLine, ClientEvent::Line { text: Some(line) }) => match parse_command(
            line.as_str(),
        ) {
            Ok(command) => handle_command(host, client, command),
            Err(error) => reply(error_reply(error.message())),
        },
        (ClientState::AwaitPing, ClientEvent::Ping { port: Some(port) }) => reply(ping_reply(port)),
        (ClientState::AwaitPing, ClientEvent::Ping { port: None }) => (
            ClientState::Done,
            ClientAction::Close,
        ),
        (ClientState::AwaitClock, ClientEvent::Clock { unix_ms }) => reply(time_reply(unix_ms)),
        (ClientState::AwaitStatus, ClientEvent::Status { session, active, target_addr }) => reply(
            server_status_response(session, active, target_addr.as_str()),
        ),
        (ClientState::AwaitSession, ClientEvent::SessionStarted) => ask_state(host, true),
        (ClientState::AwaitSession, ClientEvent::SessionFailed { message }) => reply(
            error_reply(message.as_str()),
        ),
        (ClientState::AwaitStop, ClientEvent::SessionStopped) => ask_state(host, true),
        (ClientState::AwaitDevice, ClientEvent::Device { outcome: Ok(()) }) => ask_state(
            host,
            false,
        ),
        (ClientState::AwaitDevice, ClientEvent::Device { outcome: Err(error) }) => reply(
            error_reply(error.message()),
        ),
        (ClientState::AwaitState { best_effort }, ClientEvent::State { reading }) => reply_state(
            reading,
            best_effort,
        ),
        (state, _) => (state, ClientAction::Wait),
    }
}

/// Steps that a client can be away from its last one.
pub open spec fn steps_left(state: ClientState) -> nat {
    match state {
        ClientState::AwaitLine => 3,
        ClientState::AwaitSession => 2,
        ClientState::AwaitStop => 2,
        ClientState::AwaitDevice => 2,
        ClientState::Done => 0,
        _ => 1,
    }
}

/// Every awaited event brings a client closer to its end, and it ends with
/// exactly one reply or none: a reply or a hang-up is the last step, and the
/// last step is one of them. After it nothing happens.
pub proof fn client_ends_with_one_reply(
    host: Host,
    client: IpAddress,
    state: ClientState,
    event: ClientEvent,
)
    ensures
        ({
            let (next, action) = client_next(host, client, state, event);
            &&& action is Wait ==> next == state
            &&& !(action is Wait) ==> steps_left(next) < steps_left(state)
            &&& (action is Reply || action is Close) <==> (next is Done && !(state is Done))
            &&& state is Done ==> action is Wait
        }),
{
    match (state, event) {
        (ClientState::AwaitLine, ClientEvent::Line { text: Some(line) }) => {
            assert(command_of(line@) is Ok || command_of(line@) is Err);
        },
        _ => {},
    }
}

/// A line that is no request is answered with the reason, and nothing else is
/// done for it: no session changes and the host is asked for nothing.
pub proof fn refused_line_is_answered(
    host: Host,
    client: IpAddress,
    line: String,
    error: CommandError,
)
    requires
        command_of(line@) == Err::<Command, CommandError>(error),
    ensures
        client_next(host, client, ClientState::AwaitLine, ClientEvent::Line { text: Some(line) })
            == replied(error_line(error.text())),
{
}

/// The host is changed only by the request that asks for it: volume, mute and
/// keys are set in no other step than the first, and only to what the line says.
pub proof fn host_changes_only_on_request(
    host: Host,
    client: IpAddress,
    state: ClientState,
    event: ClientEvent,
)
    ensures
        client_next(host, client, state, event).1 matches ActionView::Device { request } ==> {
            ||| request is ReadState
            ||| {
                &&& state is AwaitLine
                &&& event matches ClientEvent::Line { text: Some(line) }
                &&& match command_of(line@) {
                    Ok(Command::SetVolume { volume }) => request == (DeviceRequest::SetVolume {
                        percent: percent(volume),
                    }),
                    Ok(Command::SetMute { muted }) => request == (DeviceRequest::SetMute { muted }),
                    Ok(Command::MediaNext) => request == (DeviceRequest::PressKey {
                        key: MediaKey::NextTrack,
                    }),
                    Ok(Command::MediaPrevious) => request == (DeviceRequest::PressKey {
                        key: MediaKey::PreviousTrack,
                    }),
                    Ok(Command::MediaPlayPause) => request == (DeviceRequest::PressKey {
                        key: MediaKey::PlayPause,
                    }),
                    _ => false,
                }
            }
        },
{
}

/// Audio goes to whoever asked for it: a session is started for no other address
/// than that of the client, and for the port that its line says. Once it runs the
/// request counts as carried out, whether or not the volume can be read.
pub proof fn audio_goes_to_the_client(
    host: Host,
    client: IpAddress,
    state: ClientState,
    event: ClientEvent,
    reading: Result<AudioState, DeviceError>,
)
    ensures
        client_next(host, client, state, event).1 matches ActionView::StartSession { target } ==> {
            &&& state is AwaitLine
            &&& event matches ClientEvent::Line { text: Some(line) }
            &&& command_of(line@) == Ok::<Command, CommandError>(
                Command::StartUdp { port: target.port },
            )
            &&& target.address == client
        },
        ({
            let (next, action) = client_next(
                host,
                client,
                ClientState::AwaitSession,
                ClientEvent::SessionStarted,
            );
            let answer = if next is Done {
                (next, action)
            } else {
                client_next(host, client, next, ClientEvent::State { reading })
            };
            answer == replied(
                state_line(
                    match host {
                        Host::Windows => best_effort(reading),
                        Host::Other => AudioState { volume: 0, muted: false },
                    },
                ),
            )
        }),
{
}

/// What happened to the control port itself.
pub enum ServerEvent {
    Accepted,
    AcceptFailed { message: String },
    ShutdownRequested,
    /// The session that ran at the shutdown has been told to stop.
    SessionStopped,
}

/// What the control port is to do.
pub enum ServerAction {
    /// Serve the client beside those who are being served, and accept the next.
    Serve,
    StopSession,
    Stopped,
    Failed { message: String },
}

/// Clients are accepted until the service shuts down, which stops the session
/// first, or until the port fails.
pub fn run(event: ServerEvent) -> (r: ServerAction)
    ensures
        match event {
            ServerEvent::Accepted => r is Serve,
            ServerEvent::AcceptFailed { message } => r == (ServerAction::Failed { message }),
            ServerEvent::ShutdownRequested => r is StopSession,
            ServerEvent::SessionStopped => r is Stopped,
        },
{
    match event {
        ServerEvent::Accepted => ServerAction::Serve,
        ServerEvent::AcceptFailed { message } => ServerAction::Failed { message },
        ServerEvent::ShutdownRequested => ServerAction::StopSession,
        ServerEvent::SessionStopped => ServerAction::Stopped,
    }
}

} // verus!
