//! Resource identities, action logs and replay for a multi-backend GPU runtime.
//!
//! Every mutating API call can be recorded as an [`trace::Action`], written out as
//! a trace, and later replayed against a device model that checks handle
//! lifetimes, dispatches on the backend embedded in each id, and records the
//! backend calls that the replay issues.

mod id_bits;
pub mod id;
pub mod identity;
pub mod lock_order;
pub mod registry;
pub mod trace;
pub mod hub;
pub mod device;
pub mod query;
pub mod encoder;
pub mod replay;
pub mod player;
pub mod laws;
