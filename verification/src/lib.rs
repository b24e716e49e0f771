//! Size-bounded batching of analytics events.
//!
//! Events are handed over already serialised. A [`Batcher`] collects them up to
//! a byte limit, an [`AutoBatcher`] decides when a batch has to leave and what
//! happens to the event that did not fit, and [`HttpClient`] says where a
//! message is posted. Sending itself is left to the caller.

pub mod auto_batcher;
pub mod batcher;
pub mod errors;
pub mod http;
pub mod json;
pub mod message;
pub mod pipeline;
pub mod wire;

pub use auto_batcher::{AutoBatcher, Delivery, Pushed};
pub use batcher::Batcher;
pub use errors::Error;
pub use http::{HttpClient, Request};
pub use message::{Batch, Event, EventKind, Message};
