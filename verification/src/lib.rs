//! A single-pass ledger engine that replays an ordered stream of financial
//! transactions against per-client account state, together with the small
//! wire-format helpers the surrounding tools share.

pub mod record;
pub mod transaction;
pub mod storage;
pub mod mem_storage;
pub mod engine;
pub mod laws;
pub mod db_storage;
pub mod errors;
pub mod command;
pub mod raw_message;
pub mod endian;
