//! Bank data synchronisation: linking a provider by consent, the window of
//! dates a run fetches, the buckets and the order in which transactions are
//! written, and what the fetch-only provider is asked for.
//!
//! The library decides and computes; it reads no file and sends no request.
//! Where work alternates with decisions, a value of the library holds how
//! far the work has come: the caller performs the action it is given,
//! reports what happened, and is given the next action.

pub mod calendar;
pub mod client;
pub mod config;
pub mod encoding;
pub mod gocardless;
pub mod sync;
pub mod text;
