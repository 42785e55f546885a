# cyanotype

An adapter from an ffmpeg demuxer to per-stream async broadcast channels.

- `src/` is the verified library (Verus):
  - `demuxer.rs`: which streams of a container are opened and with which
    adapter, the table they are kept in, where each demuxed packet goes, and
    the order in which streams are wound down at the end of input.
  - `streams/`: the broadcast channel of a stream, what a data stream
    forwards for a packet, and when a video stream forwards a frame.
  - `err.rs`: the error type.
- `app/` is the program around it: it reads the container with ac-ffmpeg,
  decodes video, awaits the broadcasts, and runs the demuxing loop by asking
  the library at each step.
- `tests/` exercises the library on concrete values.
