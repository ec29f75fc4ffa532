# mondrian_media

The media layer of a video editor: probing files, interpreting their colour, decoding
previews, camera RAW pictures and windows of sound, and keeping what was decoded. Every
decision of it is verified with Verus.

## Layout

- `src/` is the verified library. It holds the rules and the state machines, and never
  touches a file, a process, a thread or a clock.
  - `info`: what a probed file is, and which colour space its metadata stand for.
  - `decoder`: surface formats, hardware backends, and the pool of device contexts.
  - `preview`: requests, access policies, threading, presentation times, diagnostics.
  - `camera_raw`: the TIFF and DNG containers, and Bayer mosaics.
  - `audio_source`: decoder sessions, their slots, startup, retirement and receipts.
  - `cache`, `multilevel_cache`, `recency`: decoded frames and resolved paths.
  - `packet_identity`: the digest of the encoded packets of a stream.
  - `ffmpeg_command`, `ffmpeg_tools`, `ffmpeg_runtime`, `native_process_job`,
    `media_probe_process`, `owner_lifetime`: tools, helper processes, and their owners.
  - `path`: paths as the system splits them, and when they are equal.
  - `text`: decimal numbers, trimming and searching.
- `app/` is ordinary Rust around the library: files, processes, threads, clocks, floating
  point, and the calls into FFmpeg under `app/linked`.
- `tests/` run the library with its outside crates.

## How it is stated

A contract says what a function returns or changes for every input, over spec functions
that describe the result directly. What the environment decides, such as what a process
answered or whether a file is still there, comes in as an argument: a state machine takes
an event and gives the next action. Laws that relate several functions are public proof
functions beside them.

Outside crates are called behind small wrappers, whose doc comments say what is claimed of
them: `lru` for the caches, `sha2` for digests.
