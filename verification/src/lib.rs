//! Execution core of a fleet-deployment tool for machines running a
//! declarative operating-system configuration.
//!
//! The library holds the decision logic of the local-deployment pipeline:
//! goal semantics, store-path validation, interpretation of external-command
//! outcomes and captured output, the key-deployment protocol, the privilege
//! escalation flow, and the per-host pipeline ordering.  All process and
//! filesystem side effects are performed by a thin unverified driver that
//! executes the commands this library describes and feeds the outcomes back.

pub mod text;
pub mod goal;
pub mod error;
pub mod store_path;
pub mod exec;
pub mod escalate;
pub mod apply;
pub mod keys;
pub mod profile;
pub mod host;
pub mod pipeline;
