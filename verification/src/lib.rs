//! Activation-transition event bridge.
//!
//! Sits between a native windowing platform's lifecycle notifications and an
//! application's internal event queue: it turns launch/activate/resign and
//! open-files/open-urls callbacks into typed owned events, and corrects a
//! platform timing defect around activation transitions by tracking activation
//! state and requesting a single synthetic pointer re-dispatch per arm cycle.
//!
//! The platform-binding layer (native callback registration, string
//! marshalling, filesystem probes, acknowledgement codes) lives outside this
//! crate; it hands plain values in and carries the decisions back out.

pub mod activation;
pub mod delegate;
pub mod laws;
pub mod open_request;
