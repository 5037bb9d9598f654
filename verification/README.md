# cloudroom

Cloudroom runs coding agents on a machine of their own. A session is a conversation with one
harness (Codex, Pi and others). Everything that a client asks for and everything that a harness
does is first recorded in an append-only journal, and done then; the journal is saved to a
database in the background. A session can be replayed, continued after a restart, put to sleep
while it is idle, and moved to another machine.

The rules live in a library that is verified with Verus; the program around it does the input
and output.

## Layout

- `src/` is the library. Every function states in its contract what it returns or changes, and
  Verus proves it.
  - `session/`: the journal, the state of a session, the commands it takes, its life from launch
    to sleep, and the transfer of conversations. `laws.rs` and `promises.rs` hold what is true of
    all of it together.
  - `runtime/`: the protocols of the harnesses, the capture of their histories, and the accounts
    they work with.
  - `api/`, `config.rs`, `secrets/`, `preview/`, `mac/`, `sync/`, `observability/`: the service
    around the sessions.
  - `json.rs`, `wire.rs`, `table.rs`, `text.rs`, `hex.rs`: the values that all of them speak of.
    `wire.rs` reads and writes JSON with `serde_json`; `text.rs` holds what is taken from the
    standard library. What these two say of the code they call is not proved.
- `tests/` runs the library.
- `app/` is the service: files, sockets, processes, HTTP and the database.

## Running it

The service takes its configuration from variables: `CLOUDROOM_TOKEN`, `CLOUDROOM_LISTEN`,
`CLOUDROOM_STATE_DIR`, `CLOUDROOM_ACCOUNT_HOME`, `CLOUDROOM_REPOSITORY`, `CLOUDROOM_DATABASE_URL`,
`CLOUDROOM_STORE`, `CLOUDROOM_HARNESS`, `CLOUDROOM_MODEL`, and for each harness its binary and its
home. `CLOUDROOM_PRODUCT` is the word, in small letters, by which the maker of the third harness
calls its product, and `CLOUDROOM_PRODUCT_NAME` its name: homes, sign-in pages, records and messages
follow from the two. `cloudroom --features` lists what it offers; `cloudroom preview`, `cloudroom mac` and
`cloudroom secret` are for the agents themselves.
