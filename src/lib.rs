//! A relay that takes a multipart upload and forwards each file to cloud blob
//! storage as a block blob. The decisions of the relay live here, verified;
//! the HTTP server and client that carry them out stand outside.
pub mod config;
pub mod credentials;
pub mod payload;
pub mod relay;
pub mod reply;
pub mod route;
pub mod target;
