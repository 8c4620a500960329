//! Conflict-free replicated datatypes kept in sync with a server.
//!
//! The library holds the replication core of a datatype and states its
//! behaviour in contracts:
//!
//! - `types`, `text`: identifiers, lifecycle states, checkpoints, and their
//!   text forms.
//! - `operations`, `crdt`: operations, transactions, and the counter CRDT
//!   with its arithmetic modulo 2^64.
//! - `push_buffer`: the committed local transactions awaiting the server,
//!   contiguous in cseq and bounded in memory.
//! - `mutable`: a datatype's local state, with the transaction and rollback
//!   discipline.
//! - `push_pull_pack`, `pull_handler`, `wired`: the push/pull exchange and
//!   the application of what the server sends back.
//! - `server`, `connectivity`: the in-process reference server and the
//!   connectivities through which datatypes reach a server.
//! - `counter`, `clients`, `name_validator`: the user-facing counter, the
//!   client's registry of datatypes, and the naming policies.
//! - `laws`: properties that span several functions, proved.

pub mod clients;
pub mod connectivity;
pub mod counter;
pub mod crdt;
pub mod errors;
pub mod laws;
pub mod mutable;
pub mod name_validator;
pub mod operations;
pub mod pull_handler;
pub mod push_buffer;
pub mod push_pull_pack;
pub mod server;
pub mod text;
pub mod types;
pub mod wired;
