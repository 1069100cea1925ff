//! Core logic of a small HTTP service: layered configuration resolution
//! and assembly of one composite API specification document served
//! through several presentation surfaces.

pub mod composer;
pub mod config;
pub mod extra_schemas;
pub mod kvlist;
pub mod present;
pub mod respond;
pub mod version;
