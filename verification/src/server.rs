//! Server-side logic: the error taxonomy the scheduler raises, the agent
//! registry and job scheduler, the record types of the persistence
//! collaborator, configuration parsing helpers, and the frame handler that
//! the transport loop drives.

pub mod cfg;
pub mod db;
pub mod error;
pub mod handler;
pub mod registry;
