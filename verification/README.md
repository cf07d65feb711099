# kplayer

The verified core of the KPlayer media gateway, written in Verus.

## Layout

- `src/config` — the configuration model, the JSON reader of configuration
  version 3.0.0 (`version/version_300.rs`), the decoding rules it follows
  (`decode.rs`), the JSON tree it reads (`json.rs`) and the reading of a
  JSON5 configuration file's text (`file.rs`).
- `src/kpserver` — the RTMP relay: its configuration entries, its reports,
  the reading of RTMP URLs, the plan that starts its servers and tasks, the
  state machines of its pull and push tasks and of the forwarder, and the
  laws they keep (attempts are numbered from one, a push connects once,
  a finished task does nothing more).
- `src/factory` — what the gateway builds from its configuration:
  playlists with their media (from what became of listing directories and
  opening files), scenes with their plugins (from what became of the plugin
  center's checks), servers and instances, and which servers and instances
  a launch starts.
- `src/server` — server contexts, the HTTP API server, the media servers and
  the bodies the HTTP API accepts.
- `src/util` — errors and their codes, random names, clock text, file
  checks, JSON-RPC answers and the log level of events.
- `src/gateway.rs` — how the program wires the relay and the transcoder.
- `app/` — the program: reading files and directories, asking the plugin
  center and downloading plugins, running the relay on the RTMP, HTTP-FLV
  and HLS servers of the stream hub, and logging events.
- `tests/` — tests of the library on concrete values.

Verus proves every function of `src/`, most of them against a contract of
their own; the calls into outside crates sit behind small trusted wrappers
whose contracts are stated next to them.
