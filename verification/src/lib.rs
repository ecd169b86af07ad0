//! A deterministic state machine for a ticket-sale and access-control
//! platform: users buy tickets of named types, later claim them, the
//! platform owner transfers ticket ownership and maintains a blocklist.
//! Every command is executed atomically against the durable state; an
//! error leaves the state untouched.

pub mod contract;
pub mod decimal;
pub mod error;
pub mod laws;
pub mod msg;
pub mod response;
pub mod state;
