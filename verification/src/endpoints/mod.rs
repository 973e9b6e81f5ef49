//! What the embedded service is built from.

pub mod cors;
