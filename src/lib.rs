//! Typed client library for the agent platform control plane.
//!
//! The library holds the verified mapping layer of the client: the caller-facing
//! domain model, the wire messages exchanged with the control-plane service, the
//! encoding of absent values on the wire, the construction of request payloads,
//! the decoding of responses and the classification of call failures.
pub mod client;
pub mod error;
pub mod models;
pub mod sentinel;
pub mod wire;

pub use error::SdkError;
pub use models::{Agent, BudgetCheck, BudgetInfo, Org, PolicyDecision, UsageSummary};
