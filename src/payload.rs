//! A part's payload, gathered in memory chunk by chunk as the part arrives.
use vstd::prelude::*;

verus! {

/// Relies on `bytes::BufMut::put_slice` for `Vec<u8>`, which extends the
/// vector by the slice; it panics only when the vector outgrows `isize::MAX`
/// bytes.
#[verifier::external_body]
fn put_slice(buf: &mut Vec<u8>, chunk: &[u8])
    requires
        old(buf)@.len() + chunk@.len() <= isize::MAX,
    ensures
        final(buf)@ == old(buf)@ + chunk@,
{
    bytes::BufMut::put_slice(buf, chunk)
}

/// Appends one chunk of a part to its payload. Returns false, leaving the
/// payload as it was, when the result would not fit in memory.
pub fn append_chunk(buf: &mut Vec<u8>, chunk: &[u8]) -> (r: bool)
    ensures
        r == (old(buf)@.len() + chunk@.len() <= isize::MAX),
        r ==> final(buf)@ == old(buf)@ + chunk@,
        !r ==> final(buf)@ == old(buf)@,
{
    let limit: usize = isize::MAX as usize;
    if chunk.len() <= limit && buf.len() <= limit - chunk.len() {
        put_slice(buf, chunk);
        true
    } else {
        false
    }
}

} // verus!
