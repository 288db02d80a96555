//! Orchestration logic for database containers: the catalog of database
//! kinds, resource conflict checks, container specifications, image
//! decisions, the migration pipeline, compose deployments, and the rows and
//! figures shown to the operator.

pub mod archive;
pub mod catalog;
pub mod compose;
pub mod compose_gen;
pub mod container;
pub mod db_exec;
pub mod deploy;
pub mod inventory;
pub mod limits;
pub mod migration;
pub mod migration_plan;
pub mod monitor;
pub mod provision;
pub mod store;
pub mod teardown;
pub mod text;
pub mod volume_ops;
