//! Verified core of a small memory service: validation of content, the byte
//! profile behind each embedding, record identifiers, error mapping, and the
//! decision flow of every service operation against the record store.

pub mod outside;
pub mod model;
pub mod text;
pub mod error;
pub mod embedding;
pub mod service;
pub mod laws;
