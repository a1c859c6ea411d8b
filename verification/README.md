# whatsapp_rust

The decisions of a WhatsApp client, verified with Verus, and a thin crate around them that does
the work.

- `src/` is the library. Its functions state in their contracts what they return, and the laws
  that span several of them are public proof functions beside them. It is pure: sockets, stores
  and timers stay outside. What it takes from other crates (the binary form of stanzas, protocol
  buffers, frames, queues, random numbers) goes through a few small functions whose contracts are
  believed; each says in its comment what is claimed.
- `tests/` runs the library, with the other crates linked.
- `app/` connects the library to a runtime, a transport and stores, which it takes as traits.

Inside `src/`:

| Module | What it is about |
| --- | --- |
| `jid`, `node`, `wire`, `frames` | addresses, stanzas, their binary form, the frames they come in |
| `text`, `text_map`, `types` | texts, maps keyed by text, what a message is known by |
| `backoff`, `flush_scope` | waits between attempts, tasks that a shutdown waits for |
| `client::link`, `client::failure`, `client::login` | the connection, how it fails, what a login leads to |
| `client::stanza`, `client::filter`, `client::reader` | stanzas that come, who waits for them, how they are read |
| `client::app_state`, `client::sync`, `client::keys` | the state that the devices of an account share |
| `client::inbound`, `handlers::message` | messages between the connection and the application |
| `client::account`, `client::state`, `client::diagnostics`, `client::error` | the account, the client as a whole |
| `message::*` | from a message stanza to its content |
| `features::contacts` | questions about contacts |
