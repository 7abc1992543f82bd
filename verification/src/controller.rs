//! The controller's decisions: spec validation and status updates for each resource, backup
//! progress reporting, and the mount Pods that read and write PVCs.

pub mod agent;
pub mod error;
pub mod progress;
pub mod pvc_reader;
pub mod pvc_writer;
pub mod reconcile;
