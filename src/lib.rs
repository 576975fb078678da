//! Motion monitor for a single camera connection.
//!
//! The monitor turns an intermittent, session-based motion feed into a
//! single-slot published state that any number of readers can watch.
//! The decisions of the monitor (how events map to states, when a session
//! is opened, read, abandoned and retried, and when the task ends) are
//! plain state machines here; the asynchronous plumbing that awaits the
//! device and the request queue drives them from outside.

mod motion;
mod publisher;
mod ingest;
mod broker;
mod monitor;

pub use motion::{published_state, MotionEvent, MotionState, Timestamp};
pub use publisher::StatePublisher;
pub use broker::{serve_request, SubscriptionRequest};
pub use monitor::{MonitorAction, MonitorEvent, MonitorTask};
pub use ingest::{IngestAction, IngestInput, IngestLoop, IngestPhase, RETRY_DELAY_MS};
