//! The UDP responder with which a client measures latency and clock offset.

use crate::bytes::{byte_range, le_bytes, le_value_of_le_bytes, push_le};
use crate::net::IpAddress;
use crate::packet::field;
use vstd::prelude::*;

verus! {

/// First four bytes of a latency probe: `LAT1`.
pub const PROBE_MAGIC: [u8; 4] = [76, 65, 84, 49];

/// Length of a latency probe.
pub const PROBE_BYTES: usize = 16;

/// How long the responder listens for the next datagram, in milliseconds.
pub const LISTEN_MS: u64 = 3000;

/// Longest datagram that the responder reads.
pub const DATAGRAM_BYTES: usize = 256;

/// Milliseconds since 1970 from a reading of the clock, none where the clock
/// stands before that.
pub open spec fn unix_ms(since_epoch_ms: Option<u128>) -> u64 {
    match since_epoch_ms {
        Some(ms) => (ms % 0x1_0000_0000_0000_0000) as u64,
        None => 0,
    }
}

/// The clock as it is sent: a clock before 1970 counts as 1970, and one that
/// does not fit 64 bits wraps.
pub fn current_unix_time_ms(since_epoch_ms: Option<u128>) -> (r: u64)
    ensures
        r == unix_ms(since_epoch_ms),
{
    match since_epoch_ms {
        Some(ms) => (ms % 0x1_0000_0000_0000_0000) as u64,
        None => 0,
    }
}

/// Whether a datagram is a latency probe.
pub open spec fn is_probe(request: Seq<u8>) -> bool {
    request.len() == PROBE_BYTES && request.take(4) == PROBE_MAGIC@
}

/// A probe comes back with the times at which it arrived and left; anything
/// else comes back as it is.
pub open spec fn echoed(request: Seq<u8>, receive_ms: u64, send_ms: u64) -> Seq<u8> {
    if is_probe(request) {
        request.take(8) + le_bytes(receive_ms as nat, 8) + le_bytes(send_ms as nat, 8)
    } else {
        request
    }
}

fn copy_prefix(request: &[u8], count: usize) -> (r: Vec<u8>)
    requires
        count <= request@.len(),
    ensures
        r@ == request@.take(count as int),
{
    let mut out: Vec<u8> = Vec::new();
    let mut i: usize = 0;
    while i < count
        invariant
            i <= count <= request@.len(),
            out@ == request@.take(i as int),
        decreases count - i,
    {
        out.push(request[i]);
        i = i + 1;
        assert(out@ =~= request@.take(i as int));
    }
    out
}

/// Answers a datagram that came from `from` to the responder of `client`:
/// only the client itself is answered.
pub fn udp_ping_response(
    client: IpAddress,
    from: IpAddress,
    request: &[u8],
    receive_ms: u64,
    send_ms: u64,
) -> (r: Option<Vec<u8>>)
    ensures
        r is Some <==> from == client,
        r matches Some(reply) ==> reply@ == echoed(request@, receive_ms, send_ms),
{
    if from != client {
        return None;
    }
    if request.len() == PROBE_BYTES && request[0] == PROBE_MAGIC[0] && request[1] == PROBE_MAGIC[1]
        && request[2] == PROBE_MAGIC[2] && request[3] == PROBE_MAGIC[3] {
        assert(request@.take(4) =~= PROBE_MAGIC@);
        let mut reply: Vec<u8> = copy_prefix(request, 8);
        push_le(&mut reply, receive_ms, 8);
        push_le(&mut reply, send_ms, 8);
        Some(reply)
    } else {
        proof {
            if is_probe(request@) {
                let head = request@.take(4);
                assert(head[0] == request@[0] && head[1] == request@[1] && head[2] == request@[2]
                    && head[3] == request@[3]);
            }
        }
        let reply: Vec<u8> = copy_prefix(request, request.len());
        assert(reply@ =~= request@);
        Some(reply)
    }
}

/// What happened to the responder of a client.
pub enum ResponderEvent {
    /// A datagram came, was read at `receive_ms`, and can be answered at `send_ms`.
    Datagram { from: IpAddress, request: Vec<u8>, receive_ms: u64, send_ms: u64 },
    /// None came in time.
    TimedOut,
    /// The socket could not be read.
    ReceiveFailed,
}

/// What the responder is to do. It listens anew for `LISTEN_MS` unless it ends.
pub enum ResponderAction {
    /// Send the datagram to where the last one came from, whether or not that
    /// succeeds, and listen on.
    Reply { datagram: Vec<u8> },
    Listen,
    End,
}

/// An action, with the bytes of its datagram.
pub enum ResponderActionView {
    Reply { datagram: Seq<u8> },
    Listen,
    End,
}

impl View for ResponderAction {
    type V = ResponderActionView;

    open spec fn view(&self) -> ResponderActionView {
        match self {
            ResponderAction::Reply { datagram } => ResponderActionView::Reply {
                datagram: datagram@,
            },
            ResponderAction::Listen => ResponderActionView::Listen,
            ResponderAction::End => ResponderActionView::End,
        }
    }
}

/// The responder answers its client, passes over everybody else, and ends once
/// nothing comes.
pub open spec fn responder_next(client: IpAddress, event: ResponderEvent) -> ResponderActionView {
    match event {
        ResponderEvent::Datagram { from, request, receive_ms, send_ms } => if from == client {
            ResponderActionView::Reply { datagram: echoed(request@, receive_ms, send_ms) }
        } else {
            ResponderActionView::Listen
        },
        ResponderEvent::TimedOut | ResponderEvent::ReceiveFailed => ResponderActionView::End,
    }
}

/// Takes the responder of a client one step on.
pub fn start_udp_ping_responder(client: IpAddress, event: ResponderEvent) -> (r: ResponderAction)
    ensures
        r@ == responder_next(client, event),
{
    match event {
        ResponderEvent::Datagram { from, request, receive_ms, send_ms } => {
            match udp_ping_response(client, from, request.as_slice(), receive_ms, send_ms) {
                Some(datagram) => ResponderAction::Reply { datagram },
                None => ResponderAction::Listen,
            }
        },
        ResponderEvent::TimedOut | ResponderEvent::ReceiveFailed => ResponderAction::End,
    }
}

/// A client reads both times out of the answer to its probe, and finds the
/// first half of the probe unchanged.
pub proof fn probe_answer_fields(request: Seq<u8>, receive_ms: u64, send_ms: u64)
    requires
        is_probe(request),
    ensures
        ({
            let reply = echoed(request, receive_ms, send_ms);
            &&& reply.len() == 24
            &&& reply.take(8) == request.take(8)
            &&& field(reply, 8, 8) == receive_ms
            &&& field(reply, 16, 8) == send_ms
        }),
{
    let reply = echoed(request, receive_ms, send_ms);
    reveal_with_fuel(byte_range, 9);
    le_value_of_le_bytes(receive_ms as nat, 8);
    le_value_of_le_bytes(send_ms as nat, 8);
    assert(reply.take(8) =~= request.take(8));
    assert(reply.subrange(8, 16) =~= le_bytes(receive_ms as nat, 8));
    assert(reply.subrange(16, 24) =~= le_bytes(send_ms as nat, 8));
}

} // verus!
