//! A credential-and-blob vault service: request guards that validate raw header
//! values, and the decisions of the user repository, verified with Verus.
pub mod error;
pub mod hex_codec;
pub mod guards;
pub mod models;
pub mod repository;
pub mod table;
