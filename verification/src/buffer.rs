//! Byte buffers that keep short contents in place and longer ones on the heap.

use vstd::prelude::*;
use smallvec::SmallVec;

verus! {

/// The number of bytes that a [`Buffer`] can hold without memory of its own on the
/// heap.
pub const INLINE_BYTES: usize = 512;

/// A run of bytes in a `SmallVec`.
#[verifier::external_body]
#[derive(Debug)]
pub struct Buffer {
    bytes: SmallVec<[u8; INLINE_BYTES]>,
}

/// The bytes that a buffer holds, in order.
pub uninterp spec fn held(buffer: Buffer) -> Seq<u8>;

impl View for Buffer {
    type V = Seq<u8>;

    open spec fn view(&self) -> Seq<u8> {
        held(*self)
    }
}

impl Buffer {
    /// `SmallVec::new`: a buffer that holds nothing.
    #[verifier::external_body]
    pub(crate) fn new() -> (buffer: Buffer)
        ensures
            held(buffer) == Seq::<u8>::empty(),
    {
        Buffer { bytes: SmallVec::new() }
    }

    /// `SmallVec::from_slice`: a buffer that holds a copy of `bytes`.
    #[verifier::external_body]
    pub(crate) fn from_slice(bytes: &[u8]) -> (buffer: Buffer)
        ensures
            held(buffer) == bytes@,
    {
        Buffer { bytes: SmallVec::from_slice(bytes) }
    }

    /// `SmallVec::from_vec`: a buffer that holds what `bytes` held.
    #[verifier::external_body]
    pub(crate) fn from_vec(bytes: Vec<u8>) -> (buffer: Buffer)
        ensures
            held(buffer) == bytes@,
    {
        Buffer { bytes: SmallVec::from_vec(bytes) }
    }

    /// `SmallVec::as_slice`: the bytes that the buffer holds.
    #[verifier::external_body]
    pub(crate) fn as_slice<'a>(&'a self) -> (bytes: &'a [u8])
        ensures
            bytes@ == held(*self),
    {
        self.bytes.as_slice()
    }
}

} // verus!
