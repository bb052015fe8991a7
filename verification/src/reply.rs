//! The lines that the control port answers.

use crate::audio_protocol::{FRAME_MS, PROTOCOL};
use crate::device::AudioState;
use crate::text::{decimal, push_decimal};
use vstd::prelude::*;

verus! {

/// A yes or no as a digit.
pub open spec fn bit(on: bool) -> Seq<char> {
    if on {
        "1"@
    } else {
        "0"@
    }
}

/// Volume and mute after a request that was carried out.
pub open spec fn state_line(state: AudioState) -> Seq<char> {
    "OK volume="@ + decimal(state.volume as nat) + " muted="@ + bit(state.muted) + " frame_ms="@
        + decimal(FRAME_MS as nat) + "\n"@
}

/// The port of the latency responder.
pub open spec fn ping_line(port: u16) -> Seq<char> {
    "OK udp_ping_port="@ + decimal(port as nat) + "\n"@
}

/// The clock of the sender, in milliseconds since 1970.
pub open spec fn time_line(unix_ms: u64) -> Seq<char> {
    "OK server_unix_ms="@ + decimal(unix_ms as nat) + "\n"@
}

/// What the sender is doing.
pub open spec fn status_line(session: bool, active: bool, target_addr: Seq<char>) -> Seq<char> {
    "OK running=1 udp_session="@ + bit(session) + " audio_active="@ + bit(active) + " target_addr="@
        + target_addr + " frame_ms="@ + decimal(FRAME_MS as nat) + " protocol="@ + PROTOCOL@ + "\n"@
}

/// Why a request was refused or failed.
pub open spec fn error_line(message: Seq<char>) -> Seq<char> {
    "ERR "@ + message + "\n"@
}

fn push_bit(out: &mut String, on: bool)
    ensures
        final(out)@ == old(out)@ + bit(on),
{
    if on {
        out.append("1");
    } else {
        out.append("0");
    }
}

pub fn state_reply(state: AudioState) -> (r: String)
    ensures
        r@ == state_line(state),
{
    let mut out: String = String::new();
    out.append("OK volume=");
    push_decimal(&mut out, state.volume as u64);
    out.append(" muted=");
    push_bit(&mut out, state.muted);
    out.append(" frame_ms=");
    push_decimal(&mut out, FRAME_MS as u64);
    out.append("\n");
    assert(out@ =~= state_line(state));
    out
}

pub fn ping_reply(port: u16) -> (r: String)
    ensures
        r@ == ping_line(port),
{
    let mut out: String = String::new();
    out.append("OK udp_ping_port=");
    push_decimal(&mut out, port as u64);
    out.append("\n");
    assert(out@ =~= ping_line(port));
    out
}

pub fn time_reply(unix_ms: u64) -> (r: String)
    ensures
        r@ == time_line(unix_ms),
{
    let mut out: String = String::new();
    out.append("OK server_unix_ms=");
    push_decimal(&mut out, unix_ms);
    out.append("\n");
    assert(out@ =~= time_line(unix_ms));
    out
}

/// `target_addr` is empty where there is no session.
pub fn server_status_response(session: bool, active: bool, target_addr: &str) -> (r: String)
    ensures
        r@ == status_line(session, active, target_addr@),
{
    let mut out: String = String::new();
    out.append("OK running=1 udp_session=");
    push_bit(&mut out, session);
    out.append(" audio_active=");
    push_bit(&mut out, active);
    out.append(" target_addr=");
    out.append(target_addr);
    out.append(" frame_ms=");
    push_decimal(&mut out, FRAME_MS as u64);
    out.append(" protocol=");
    out.append(PROTOCOL);
    out.append("\n");
    assert(out@ =~= status_line(session, active, target_addr@));
    out
}

pub fn error_reply(message: &str) -> (r: String)
    ensures
        r@ == error_line(message@),
{
    let mut out: String = String::new();
    out.append("ERR ");
    out.append(message);
    out.append("\n");
    assert(out@ =~= error_line(message@));
    out
}

/// A reader tells by the first word whether a request was carried out.
pub proof fn errors_are_told_apart(
    message: Seq<char>,
    state: AudioState,
    port: u16,
    unix_ms: u64,
    session: bool,
    active: bool,
    target_addr: Seq<char>,
)
    ensures
        error_line(message).take(4) == "ERR "@,
        state_line(state).take(3) == "OK "@,
        ping_line(port).take(3) == "OK "@,
        time_line(unix_ms).take(3) == "OK "@,
        status_line(session, active, target_addr).take(3) == "OK "@,
{
    reveal_strlit("ERR ");
    reveal_strlit("OK ");
    reveal_strlit("OK volume=");
    reveal_strlit("OK udp_ping_port=");
    reveal_strlit("OK server_unix_ms=");
    reveal_strlit("OK running=1 udp_session=");
    assert(error_line(message).take(4) =~= "ERR "@);
    assert(state_line(state).take(3) =~= "OK "@);
    assert(ping_line(port).take(3) =~= "OK "@);
    assert(time_line(unix_ms).take(3) =~= "OK "@);
    assert(status_line(session, active, target_addr).take(3) =~= "OK "@);
}

} // verus!
