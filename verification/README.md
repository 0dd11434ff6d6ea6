# fnsd

A headless Fast Note Sync client, with its core written in Verus.

`src/` is the verified library:

- `domain`: vault names and vault paths (normalisation, segments), content
  and path hashes, server timestamps, resource kinds and sync batches.
- `hash`: the plugin-compatible rolling hashes of text (UTF-16 units) and of
  bytes, the sampled hash of large files, and path hashes.
- `protocol`: action names, binary frames and file chunk payloads, the
  protobuf wire format (read and written with prost's encoding
  primitives), the `WsMessage` / `WsResponseMessage` envelopes, which
  protobuf message carries the payload of each action, and the payload
  messages themselves (their fields by number, read and written exactly).
- `store`: the decisions of the SQLite state store: keys, column values,
  which kinds record pending work, and which rows a folder rename moves.
- `daemon`: the daemon's options, reconnect back-off and watch decisions.

Each public function states its result in its contract; the laws of the
library (round trips, idempotence, injectivity, bounds) are public proof
functions beside the functions they speak of.

`app/` is the program around the library: command-line parsing, logging,
the SQLite store, the JSON names of payload fields, and the daemon's
session loop.
