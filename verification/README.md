# imagehub

A client for managing the images of an account on imagehub.cc — logging in,
listing, uploading and deleting images — whose logic carries machine-checked
proofs of its contracts.

The library (`src/`) decides every request and reads every reply; it never
touches the network or the disk. The program (`app/`) sends the requests with
`reqwest`, reads files and the configuration file, and hands the outcomes
back to the library.

- `src/lib.rs` — the account's session and credentials (`ImageHub`), and the
  decision that precedes each operation.
- `src/api.rs` — login steps, response bodies, cookies, upload and deletion
  requests and replies.
- `src/listing.rs` — reading the image listing out of an account page.
- `src/json.rs` — the JSON documents the library reads.
- `src/config.rs` — the text of the configuration file.
- `src/cli.rs` — the command line and the interactive prompt.
- `src/services.rs` — a lighter session holder.
- `src/text.rs`, `src/request.rs`, `src/models.rs`, `src/errors.rs` — shared pieces.
