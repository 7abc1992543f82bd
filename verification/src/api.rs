//! The HTTP API's logic: request validation, resource construction, list rows, inventory
//! filtering and readiness.

pub mod backups;
pub mod common;
pub mod error;
pub mod inventory;
pub mod namespaces;
pub mod repositories;
pub mod resources;
pub mod secrets;
pub mod state;
