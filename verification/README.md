# Audio Link

The sender side of a LAN audio link: it captures what the default output device
plays and sends it to a receiver as UDP packets of 16-bit stereo PCM. Every
packet also carries the frame of the packet before it, so that a receiver loses
nothing where a single packet is lost. Receivers find the sender by mDNS and
control it over a TCP port: one line of text in, one line out.

`src/` is the library, verified with Verus. It holds what the program decides, and
what it computes in integers:

- `audio_protocol`, `bytes`, `pcm`, `packet`: the wire format.
- `sender`, `stream_laws`: cutting the captured stream into packets, and what the
  packets of a stream say together.
- `pcm_pipe`, `capture`, `resample`, `wave_format`, `loopback`, `pipeline`: from
  the render endpoint to the sender.
- `text`, `command`, `reply`, `control_server`, `session`, `device`, `latency`,
  `net`: the control port.
- `audio_stats`, `audio_engine_period`, `service`, `tray`: what users see.
- `audio_device_events`, `network_events`, `change_count`, `mdns_discovery`,
  `audio_thread_priority`: the host and the network around it.

Work that only the host can do is a step of a state machine: a stage names the
call that is due, and a verified function takes its outcome to the next stage.
Clocks are passed in as numbers. Samples in single precision are carried as bit
patterns.

`app/` is the program: threads, sockets, the Windows audio service, the tray and
the arithmetic in floating point. `tests/` runs the library.
