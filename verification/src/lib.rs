//! Verified core of the work-navigation master API and its outbox consumer.
use vstd::prelude::*;

pub mod text;
pub mod ids;
pub mod error;
pub mod signature;
pub mod event_type;
pub mod outbox;
pub mod schedule;
pub mod master;
pub mod quality;
pub mod reports;
pub mod trace;
pub mod access;
pub mod health;
pub mod auth;
pub mod ops;

verus! {
}
