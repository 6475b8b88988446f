//! Options of relational backends: what a connection needs, what its pool
//! needs, and their validation.
pub mod mysql;
pub mod options;
pub mod postgresql;
pub mod types;
