//! A broker for remote shell sessions.
//!
//! Clients hold sessions in rooms. A session may send commands, which run in
//! the session's own working directory, and plain text, which goes to its
//! room or to one other session. The library decides; it sends nothing,
//! starts no process and touches no disk. Whoever runs it delivers the frames
//! that the library hands out, carries out the tasks that it asks for, and
//! reports how they went.
//!
//! - `lobby` is the broker, and `model` says what its operations do.
//! - `web_socket` handles one connection; `start_conn` opens it.
//! - `exec` plans a command and makes its result; `path` holds the rules of
//!   `cd`.
//! - `envelope` and `legacy` read and write the frames; `message` holds what
//!   sessions and broker pass to each other.
//! - `json`, `ident` and `clock` are where other crates are called.
//! - `text` holds the helpers on characters.

mod clock;
pub mod envelope;
pub mod exec;
pub mod ident;
pub mod json;
pub mod legacy;
pub mod lobby;
pub mod message;
pub mod model;
pub mod path;
pub mod start_conn;
pub mod text;
pub mod web_socket;
