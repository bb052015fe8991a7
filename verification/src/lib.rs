//! Sender side of a LAN audio link.

pub mod audio_device_events;
pub mod audio_engine_period;
pub mod audio_protocol;
pub mod audio_stats;
pub mod audio_thread_priority;
pub mod bytes;
pub mod capture;
pub mod capture_laws;
pub mod change_count;
pub mod command;
pub mod command_laws;
pub mod control_laws;
pub mod control_server;
pub mod device;
pub mod device_laws;
pub mod latency;
pub mod loopback;
pub mod loopback_laws;
pub mod mdns_discovery;
pub mod net;
pub mod network_events;
pub mod packet;
pub mod pcm;
pub mod pcm_pipe;
pub mod pipeline;
pub mod pipeline_laws;
pub mod reply;
pub mod resample;
pub mod sender;
pub mod sender_laws;
pub mod service;
pub mod service_laws;
pub mod session;
pub mod stream_laws;
pub mod text;
pub mod text_laws;
pub mod tray;
pub mod tray_laws;
pub mod wave_format;
pub mod wire_laws;
