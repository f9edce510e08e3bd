//! Transaction-checking rules of the TAI stable-coin scripts on CKB.
//!
//! Every script reads a snapshot of the transaction it runs in ([`tx::Tx`])
//! and decides whether the transaction is accepted.  The decision is stated
//! as a spec function per script, and the executable check is proved to
//! compute exactly that decision.

mod bytes_lemmas;

pub mod bytes;
pub mod error;
pub mod tx;
pub mod config;
pub mod common;
pub mod auction;
pub mod cdp;
pub mod dao_info;
pub mod sys_debt;
pub mod udt_owner;
pub mod index;
pub mod type_lock;
pub mod burn_lock;
pub mod token;
pub mod debt;
pub mod always_success;
pub mod laws;
