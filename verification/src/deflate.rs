//! The per-entry DEFLATE compressor, wrapping the `flate2` crate.
//!
//! The compressed stream is named, not defined: `deflate_of` stands for the
//! complete DEFLATE stream that `flate2`'s encoder produces for a given input
//! and compression level. With the crate's pure-Rust backend that stream is a
//! function of the input bytes and the level alone. The wrapper's ghost state
//! records the bytes fed in and handed out, so that once the stream is
//! finished, the concatenation of everything handed out equals
//! `deflate_of(input, level)` exactly.

use std::io::Write;

use vstd::prelude::*;

verus! {

/// The complete DEFLATE stream `flate2` produces for `data` at `level`.
pub uninterp spec fn deflate_of(data: Seq<u8>, level: u32) -> Seq<u8>;

/// Opaque holder for `flate2`'s encoder: its type is generic over an
/// `std::io::Write` bound, which cannot be declared to Verus, so the whole
/// holder is hidden instead.
#[verifier::external_body]
struct DeflateBox {
    inner: flate2::write::DeflateEncoder<Vec<u8>>,
}

/// A streaming DEFLATE encoder for one entry's payload.
pub struct Deflater {
    eng: DeflateBox,
    level: u32,
    fed: Ghost<Seq<u8>>,
    put: Ghost<Seq<u8>>,
}

/// Relies on `flate2::write::DeflateEncoder::new` with
/// `flate2::Compression::new(level)`: a fresh encoder that has been fed
/// nothing and has produced nothing. The backend rejects levels above its
/// own range, so levels outside the archive's `0..=9` are kept out.
#[verifier::external_body]
fn deflate_encoder_new(level: u32) -> DeflateBox
    requires
        level <= 9,
{
    DeflateBox {
        inner: flate2::write::DeflateEncoder::new(Vec::new(), flate2::Compression::new(level)),
    }
}

impl Deflater {
    /// The configured compression level, `0..=9`.
    pub closed spec fn level(&self) -> u32 {
        self.level
    }

    /// Every payload byte fed in so far, in order.
    pub closed spec fn bytes_fed(&self) -> Seq<u8> {
        self.fed@
    }

    /// Every compressed byte handed out so far, in order.
    pub closed spec fn bytes_put(&self) -> Seq<u8> {
        self.put@
    }

    pub fn new(level: u32) -> (r: Self)
        requires
            level <= 9,
        ensures
            r.level() == level,
            r.bytes_fed() == Seq::<u8>::empty(),
            r.bytes_put() == Seq::<u8>::empty(),
    {
        Self {
            eng: deflate_encoder_new(level),
            level,
            fed: Ghost(Seq::empty()),
            put: Ghost(Seq::empty()),
        }
    }

    /// Relies on `flate2`'s `Write` impl for `DeflateEncoder`: `write_all`
    /// feeds the bytes to the compressor, whose output accumulates in the
    /// inner buffer; that buffer is taken and handed back. On failure the
    /// encoder must be abandoned.
    #[verifier::external_body]
    pub fn update(&mut self, data: &[u8]) -> (r: Result<Vec<u8>, String>)
        ensures
            final(self).level() == old(self).level(),
            r is Ok ==> {
                &&& final(self).bytes_fed() == old(self).bytes_fed() + data@
                &&& final(self).bytes_put() == old(self).bytes_put() + r->Ok_0@
            },
    {
        self.eng.inner.get_mut().clear();
        match self.eng.inner.write_all(data) {
            Ok(()) => Ok(std::mem::take(self.eng.inner.get_mut())),
            Err(e) => Err(format!("{:?}", e)),
        }
    }

    /// Relies on `flate2::write::DeflateEncoder::finish`: drains the
    /// terminating piece of the stream, so that everything handed out
    /// together is the complete DEFLATE stream of everything fed in.
    #[verifier::external_body]
    pub fn finish(self) -> (r: Result<Vec<u8>, String>)
        ensures
            r is Ok ==> self.bytes_put() + r->Ok_0@ == deflate_of(self.bytes_fed(), self.level()),
    {
        let mut inner = self.eng.inner;
        inner.get_mut().clear();
        match inner.finish() {
            Ok(buf) => Ok(buf),
            Err(e) => Err(format!("{:?}", e)),
        }
    }
}

} // verus!
