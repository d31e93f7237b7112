//! Lifecycle manager for per-session sandbox labs on a cluster, and the
//! decision logic of the interactive terminal relay that attaches to them.

pub mod text;
pub mod naming;
pub mod models;
pub mod readiness;
pub mod provision;
pub mod objects;
pub mod lifecycle;
pub mod relay;
