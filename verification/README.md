# cafe_rs

Support library for Wii U applications. The crate is split in two:

* `src/` — the verified library (Verus). It holds every decision the platform
  layer takes: button translation and the per-port input cache of the
  controllers, time stamp conversions, calendar and title-ID text, reference
  counting of system resources, socket address resolution and the meaning of
  socket call results, the arenas graphics memory comes from, screen sizes and
  modes, and 2D copies into locked surface images.
* `app/` — the system side: calls into the Wii U system libraries (`cafe_sys`),
  spin locks and interior mutability, and copies of the error types with
  `Display`/`std::error::Error`. It hands plain values to the library and acts
  on what comes back.

Module map of `src/`:

| module | contents |
| --- | --- |
| `text` | zero-padded decimal and hexadecimal rendering |
| `datetime` | calendar fields and their `YYYY-MM-DD hh:mm:ss.mmm` text |
| `time` | tick/nanosecond conversions and time arithmetic |
| `rrc` | the reference count behind system resources |
| `gamepad` | buttons, controller samples, inputs and the per-port cache |
| `controller` | controller kinds and sample state |
| `net` | IPv4 addresses, their resolution, auto-connect and socket results |
| `io` | I/O error kinds |
| `arena` | memory arenas, heap calls and frame-heap snapshots |
| `graphics` | rectangles, colours, screens, memory routing, buffers, 2D views |
| `sync`, `thread`, `process` | lock results, CPU cores, title IDs |
