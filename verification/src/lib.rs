//! The decision core of a torrent streaming server.
//!
//! Every module here computes: it takes plain values and the reports of the
//! outside world (native torrent status, alerts, elapsed time, bytes read) and
//! answers with the next state and the work to perform. Performing that work
//! is left to the caller.

pub mod acknowledgement;
pub mod activation;
pub mod alerts;
pub mod arith;
pub mod cancellation;
pub mod casting;
pub mod coordinator;
pub mod domain;
pub mod errors;
pub mod handle;
pub mod hot_window;
pub mod json;
pub mod layout;
pub mod pausing;
pub mod permits;
pub mod playback;
pub mod prioritizing;
pub mod readiness;
pub mod reading;
pub mod registry;
pub mod stream;
pub mod stream_cache;
pub mod text;
pub mod transitions;
pub mod window;
pub mod youtube;
