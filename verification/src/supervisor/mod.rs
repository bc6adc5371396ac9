//! Supervisors: their specification, errors and decision logic.

pub mod error;
pub mod laws;
pub mod spec;
pub mod state;
