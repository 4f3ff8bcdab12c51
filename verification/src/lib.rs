//! A fact-collection and analysis-invocation bridge for a Polonius-style
//! borrow analysis.
//!
//! A compiler frontend reports program facts (variable uses and definitions,
//! with borrow facts as a declared extension point) against an opaque handle.
//! Each handle exclusively owns one fact store for the duration of one
//! analysis unit. Once collection is complete, the accumulated facts are
//! snapshotted and handed to the external fixpoint solver.
//!
//! The handle lifecycle is hardened: handles are generation-checked indices
//! into a registry, so a call on a closed or foreign handle is reported as
//! [`bridge::BridgeError::InvalidHandle`] instead of being undefined
//! behavior.

pub mod atoms;
pub mod bridge;
pub mod engine;
pub mod facts;
pub mod samples;
