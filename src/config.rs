//! Startup configuration of the relay, built once and handed to each request.
use vstd::prelude::*;
use crate::reply::Failure;

verus! {

/// Largest request body accepted, in bytes.
pub const MAX_BODY_BYTES: u64 = 5_000_000_000;

/// Port the relay listens on, on all interfaces.
pub const LISTEN_PORT: u16 = 8080;

pub struct Config {
    pub max_body_bytes: u64,
    pub port: u16,
}

/// Whether a body of the declared length is refused; an undeclared length is
/// left to the decoder, which holds the same cap.
pub open spec fn too_large(max_body_bytes: u64, declared_len: Option<u64>) -> bool {
    declared_len matches Some(n) && n > max_body_bytes
}

impl Config {
    /// The fixed configuration: a 5,000,000,000 byte cap and port 8080.
    pub fn new() -> (r: Config)
        ensures
            r.max_body_bytes == 5_000_000_000,
            r.port == 8080,
    {
        Config { max_body_bytes: MAX_BODY_BYTES, port: LISTEN_PORT }
    }

    /// Admission control on the body's declared length.
    pub fn admit_body(&self, declared_len: Option<u64>) -> (r: Result<(), Failure>)
        ensures
            too_large(self.max_body_bytes, declared_len) ==> r == Err::<(), Failure>(
                Failure::PayloadTooLarge,
            ),
            !too_large(self.max_body_bytes, declared_len) ==> r is Ok,
    {
        match declared_len {
            Some(n) => if n > self.max_body_bytes {
                Err(Failure::PayloadTooLarge)
            } else {
                Ok(())
            },
            None => Ok(()),
        }
    }
}

} // verus!
