//! Decision logic of a daemon that reports whether a video-capture device is
//! in use: raw open/close activity is turned into candidate states, bursts are
//! collapsed by a debouncer, and each confirmed transition becomes one message
//! for a publish/subscribe broker.

pub mod coordinator;
pub mod coordinator_laws;
pub mod debounce;
pub mod debounce_laws;
pub mod detector;
pub mod discovery;
pub mod json;
pub mod message;
pub mod schema;
pub mod state;
