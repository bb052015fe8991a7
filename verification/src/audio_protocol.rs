//! What sender and receiver agree on.

use vstd::prelude::*;

verus! {

/// TCP port on which receivers negotiate sessions and send volume and media commands.
pub const CONTROL_PORT: u16 = 9091;

/// Sample rate on the network, in Hz. Captured audio at another rate is resampled to it.
pub const SAMPLE_RATE: u32 = 48_000;

/// Channels on the network: stereo, samples interleaved left, right.
pub const CHANNELS: usize = 2;

/// Duration of the audio in one packet, in milliseconds.
pub const FRAME_MS: u32 = 10;

/// Payload format: 16-bit signed little-endian.
pub const FORMAT: &'static str = "s16le";

/// Name of the application protocol.
pub const PROTOCOL: &'static str = "tcp-control-udp-pcm-fec";

/// First four bytes of every audio packet: `LAP1`.
pub const UDP_PACKET_MAGIC: [u8; 4] = [76, 65, 80, 49];

/// Version of the packet layout.
pub const UDP_PACKET_VERSION: u8 = 1;

/// Length of the packet header, which holds the primary length and the redundancy fields.
pub const UDP_PACKET_HEADER_BYTES: usize = 48;

/// Marks a packet that carries no redundant data.
pub const UDP_PACKET_FEC_CODEC_NONE: u8 = 0;

/// Redundant data is a whole stereo 16-bit PCM frame.
pub const UDP_PACKET_FEC_CODEC_PCM_S16LE_STEREO: u8 = 1;

/// Whether every packet carries the frame of the packet before it.
pub const UDP_PACKET_FEC_ENABLED: bool = true;

/// How often each packet is sent, with the sequence number and timestamp unchanged.
pub const UDP_PACKET_SEND_MULTIPLIER: usize = 1;

/// Most samples per channel in one packet: `SAMPLE_RATE * FRAME_MS / 1000`, rounded up.
pub const MAX_FRAME_SAMPLES_PER_CHANNEL: usize = 480;

/// Most interleaved samples in one packet.
pub const MAX_FRAME_SAMPLES: usize = MAX_FRAME_SAMPLES_PER_CHANNEL * CHANNELS;

/// Most payload bytes in one packet, at two bytes per sample.
pub const MAX_FRAME_BYTES: usize = MAX_FRAME_SAMPLES * 2;

/// The packet buffer holds the audio of one packet, rounded up to whole samples.
pub proof fn frame_capacity()
    ensures
        MAX_FRAME_SAMPLES_PER_CHANNEL == (SAMPLE_RATE * FRAME_MS + 999) / 1000,
        MAX_FRAME_SAMPLES == MAX_FRAME_SAMPLES_PER_CHANNEL * CHANNELS,
        MAX_FRAME_BYTES == 2 * MAX_FRAME_SAMPLES,
{
}

} // verus!
