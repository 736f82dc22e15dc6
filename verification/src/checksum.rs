//! The per-entry CRC-32 accumulator, wrapping the `crc32fast` crate.
//!
//! The checksum value itself is named, not defined: `crc32_of` stands for the
//! IEEE CRC-32 (polynomial `0xEDB88320`, initial and final XOR `0xFFFFFFFF`)
//! of a byte stream, which is a function of those bytes alone.

use vstd::prelude::*;

verus! {

/// The IEEE CRC-32 checksum of `data`, as computed by `crc32fast`.
pub uninterp spec fn crc32_of(data: Seq<u8>) -> u32;

#[verifier::external_type_specification]
#[verifier::external_body]
pub struct ExCrc32Hasher(crc32fast::Hasher);

/// A running CRC-32 over the bytes fed so far.
pub struct Crc32 {
    inner: crc32fast::Hasher,
    fed: Ghost<Seq<u8>>,
}

/// Relies on `crc32fast::Hasher::new`: a hasher that has absorbed nothing.
#[verifier::external_body]
fn crc32_hasher_new() -> crc32fast::Hasher {
    crc32fast::Hasher::new()
}

impl Crc32 {
    /// Every byte absorbed so far, in order.
    pub closed spec fn bytes_fed(&self) -> Seq<u8> {
        self.fed@
    }

    pub fn new() -> (r: Self)
        ensures
            r.bytes_fed() == Seq::<u8>::empty(),
    {
        Self { inner: crc32_hasher_new(), fed: Ghost(Seq::empty()) }
    }

    /// Relies on `crc32fast::Hasher::update`: absorbs the bytes in order.
    #[verifier::external_body]
    pub fn update(&mut self, data: &[u8])
        ensures
            final(self).bytes_fed() == old(self).bytes_fed() + data@,
    {
        self.inner.update(data);
    }

    /// Relies on `crc32fast::Hasher::finalize`: the IEEE CRC-32 of all bytes
    /// absorbed, a function of those bytes alone; for the empty stream it is 0.
    #[verifier::external_body]
    pub fn finalize(self) -> (r: u32)
        ensures
            r == crc32_of(self.bytes_fed()),
            self.bytes_fed().len() == 0 ==> r == 0,
    {
        self.inner.finalize()
    }
}

} // verus!
