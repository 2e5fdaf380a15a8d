//! Orchestration rules for backing up, replaying and retiring the state of a
//! subnet, together with the value types and validation rules of the token
//! swap and the host-side helpers that accompany them.
//!
//! Every function in this crate is a pure decision: it receives what was
//! observed (directory listings, captured command output, clock readings) as
//! plain values and returns what has to be done next. Performing the actions
//! is left to the surrounding program.

pub mod archive;
pub mod cold_storage;
pub mod command;
pub mod disk;
pub mod height_map;
pub mod heights;
pub mod hsm;
pub mod http_handler;
pub mod layout;
pub mod lexical;
pub mod migration;
pub mod numerals;
pub mod principal;
pub mod provision;
pub mod replay;
pub mod retry;
pub mod scan;
pub mod spool;
pub mod swap_params;
pub mod swap_responses;
pub mod swap_types;
pub mod sync;
pub mod text;
