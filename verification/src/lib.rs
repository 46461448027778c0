//! An event-sourcing runtime between a durable message bus and the
//! participants of a domain: aggregates, process managers, projectors and
//! notifiers. It reads what each participant declares when it is bound,
//! decides which durable consumers stand behind the declarations, and drives
//! every message through the worker of its participant: load state, ask the
//! participant, publish what it emits, store what it answers, acknowledge.
//!
//! Nothing in here touches the bus. The workers say what is to be done and
//! are told what came of it.

use vstd::prelude::*;

pub mod assoc;
pub mod config;
pub mod consumers;
pub mod events;
pub mod eventsourcing;
pub mod json;
pub mod link;
pub mod model;
pub mod natsclient;
pub mod state;
pub mod text;
pub mod wcprovider;
pub mod workers;

pub use config::BaseConfiguration;
pub use wcprovider::ConcordanceProvider;
