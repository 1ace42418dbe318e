# macxlr

The decision core of the MacXLR daemon and desktop shell, written in Verus.

- `src/sampler.rs`: sampler banks, buttons and their slots.
- `src/audio.rs`: `AudioHandler`, the state of the sampler's slots, its output
  device and its gain calculation; the playback start sequence.
- `src/patterns.rs`: device-name patterns (compiled with `fancy-regex`) and the
  choice of the first matching device.
- `src/aggregates.rs`: the registry of aggregate devices kept per GoXLR.
- `src/launcher.rs`: how the desktop shell finds, starts and waits for the daemon.
- `src/paths.rs`: the path operations the above rely on.
- `src/laws.rs`: properties proved across operations.

`app/` holds the threads, devices, processes and window that carry out what
the library decides; `tests/` exercises the library on concrete values.
