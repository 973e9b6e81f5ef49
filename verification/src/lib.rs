//! The native side of the boundary between a host application and the
//! embedded event-logging service: fault containment, text marshaling,
//! the shared storage location and the data-directory cell.

pub mod android;
pub mod config;
pub mod datastore;
pub mod dirs;
pub mod endpoints;
pub mod fault;
pub mod gate;
pub mod json;
pub mod marshal;
