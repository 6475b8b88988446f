//! An adapter for an embedded column-family key-value engine.
//!
//! [`options::Options`] holds the configuration, [`db::DB`] owns the shared
//! engine handle and opens it at most once, and [`executor::Executor`] runs
//! [`types::Instruction`]s against one column family.
pub mod types;
pub mod options;
pub mod db;
pub mod executor;
