//! The custom resources Proteus defines: repositories, backups and restores.

pub mod backup;
pub mod meta;
pub mod repository;
pub mod restore;
