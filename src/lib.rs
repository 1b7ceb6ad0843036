//! Persistence of resumable upload sessions: one record per session id,
//! with strict create-versus-update semantics and a named error taxonomy.
pub mod error;
pub mod json;
pub mod file_info;
pub mod reply;
pub mod table;
pub mod memory;
pub mod laws;
pub mod sql_error;
