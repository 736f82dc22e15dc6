//! The buffered sink writer: batches small producer writes into
//! threshold-sized chunks for the sink, and optionally applies an invertible
//! byte transform in fixed-size blocks.
//!
//! The writer never touches the sink itself: `dump` hands back the chunk that
//! is due, and the host awaits the sink's readiness and performs the write.
//! Ghost state records every byte accepted from the producer and every byte
//! already handed out, so that the relation between the two streams is exact.

use vstd::prelude::*;

use crate::bytes::push_bytes;

verus! {

/// The byte transform: XOR with `0xFF`.
pub open spec fn transform_byte(b: u8) -> u8 {
    b ^ 0xFF
}

/// The byte transform applied to a whole stream.
///
/// Blocks only govern when bytes move between buffers, never their values, so
/// the transformed stream is the byte-wise image for every block size.
pub open spec fn transform_bytes(s: Seq<u8>) -> Seq<u8> {
    s.map(|i: int, b: u8| transform_byte(b))
}

/// The transform applied twice is the identity, for any input.
pub proof fn lemma_transform_involutive(s: Seq<u8>)
    ensures
        transform_bytes(transform_bytes(s)) == s,
{
    assert forall|i: int| 0 <= i < s.len() implies transform_bytes(transform_bytes(s))[i] == s[i] by {
        let b = s[i];
        assert((b ^ 0xFF) ^ 0xFF == b) by (bit_vector);
    }
    assert(transform_bytes(transform_bytes(s)) =~= s);
}

/// Replaces every byte of `v` with its transform.
fn xor_in_place(v: &mut Vec<u8>)
    ensures
        final(v)@ == transform_bytes(old(v)@),
{
    let mut i: usize = 0;
    while i < v.len()
        invariant
            i <= v@.len(),
            v@.len() == old(v)@.len(),
            forall|j: int| 0 <= j < i ==> v@[j] == transform_byte(old(v)@[j]),
            forall|j: int| i <= j < v@.len() ==> v@[j] == old(v)@[j],
        decreases v@.len() - i,
    {
        let b = v[i];
        v.set(i, b ^ 0xFF);
        i = i + 1;
    }
    proof {
        assert(v@ =~= transform_bytes(old(v)@));
    }
}

/// Buffers producer bytes, forms transform blocks, and accumulates
/// sink-bound bytes until a chunk is due.
pub struct TransformWriter {
    /// A chunk is due once this many sink-bound bytes have accumulated.
    pub threshold: usize,
    /// The transform block size; a full block is transformed at once.
    pub block_size: usize,
    /// With `bypass` set, bytes stream through unchanged.
    pub bypass: bool,
    /// Producer bytes waiting for their block to fill (raw, untransformed).
    pub transform_buffer: Vec<u8>,
    /// Sink-bound bytes (already transformed) not yet handed out.
    pub result_buffer: Vec<u8>,
    /// Every producer byte ever accepted by `write`.
    pub accepted: Ghost<Seq<u8>>,
    /// Every byte already handed out by `dump`.
    pub emitted: Ghost<Seq<u8>>,
}

impl TransformWriter {
    /// The transform as configured: identity when bypassing.
    pub open spec fn applied(&self, s: Seq<u8>) -> Seq<u8> {
        if self.bypass {
            s
        } else {
            transform_bytes(s)
        }
    }

    /// The writer's invariant: bytes handed out, bytes waiting for the sink,
    /// and the image of the bytes waiting for a full block together form
    /// exactly the image of the accepted stream.
    pub open spec fn wf(&self) -> bool {
        &&& self.block_size >= 1
        &&& self.transform_buffer@.len() <= self.block_size
        &&& (self.bypass ==> self.transform_buffer@.len() == 0)
        &&& self.emitted@ + self.result_buffer@ + self.applied(self.transform_buffer@)
            == self.applied(self.accepted@)
    }

    /// The configuration fields of `other` match `self`'s.
    pub open spec fn same_config(&self, other: &Self) -> bool {
        &&& self.threshold == other.threshold
        &&& self.block_size == other.block_size
        &&& self.bypass == other.bypass
    }

    pub fn new(threshold: usize, transform_block_size: usize, bypass: bool) -> (r: Self)
        requires
            transform_block_size >= 1,
        ensures
            r.wf(),
            r.threshold == threshold,
            r.block_size == transform_block_size,
            r.bypass == bypass,
            r.accepted@ == Seq::<u8>::empty(),
            r.emitted@ == Seq::<u8>::empty(),
            r.result_buffer@ == Seq::<u8>::empty(),
    {
        let r = Self {
            threshold,
            block_size: transform_block_size,
            bypass,
            transform_buffer: Vec::new(),
            result_buffer: Vec::new(),
            accepted: Ghost(Seq::empty()),
            emitted: Ghost(Seq::empty()),
        };
        proof {
            assert(r.emitted@ + r.result_buffer@ + r.applied(r.transform_buffer@)
                =~= r.applied(r.accepted@));
        }
        r
    }

    /// Accepts producer bytes: appends to the current transform block (or
    /// straight to the sink-bound buffer when bypassing), transforming each
    /// block the moment it fills. Never blocks, never fails. Bytes move to
    /// the sink-bound buffer only in whole blocks: the count this call moved
    /// is a multiple of the block size.
    pub fn write(&mut self, buf: &[u8])
        requires
            old(self).wf(),
        ensures
            final(self).wf(),
            old(self).same_config(final(self)),
            final(self).accepted@ == old(self).accepted@ + buf@,
            final(self).emitted@ == old(self).emitted@,
            old(self).bypass ==> {
                &&& final(self).result_buffer@ == old(self).result_buffer@ + buf@
                &&& final(self).transform_buffer@ == old(self).transform_buffer@
            },
            !old(self).bypass ==> {
                &&& final(self).transform_buffer@.len()
                    <= old(self).transform_buffer@.len() + buf@.len()
                &&& (old(self).transform_buffer@.len() + buf@.len()
                    - final(self).transform_buffer@.len())
                    % (old(self).block_size as int) == 0
            },
    {
        if self.bypass {
            push_bytes(&mut self.result_buffer, buf);
            proof {
                self.accepted = Ghost(self.accepted@ + buf@);
                assert(self.emitted@ + self.result_buffer@ + self.applied(self.transform_buffer@)
                    =~= self.applied(self.accepted@));
            }
        } else {
            let ghost acc0 = self.accepted@;
            let ghost pend0 = self.transform_buffer@.len() as int;
            let ghost mut moved: int = 0;
            let mut i: usize = 0;
            while i < buf.len()
                invariant
                    i <= buf@.len(),
                    !self.bypass,
                    self.block_size == old(self).block_size,
                    self.threshold == old(self).threshold,
                    self.block_size >= 1,
                    self.transform_buffer@.len() <= self.block_size,
                    self.accepted@ == acc0,
                    self.emitted@ == old(self).emitted@,
                    self.emitted@ + self.result_buffer@ + transform_bytes(self.transform_buffer@)
                        == transform_bytes(acc0 + buf@.take(i as int)),
                    pend0 == old(self).transform_buffer@.len() as int,
                    self.transform_buffer@.len() + moved == pend0 + i,
                    moved >= 0,
                    moved % (self.block_size as int) == 0,
                decreases buf@.len() - i,
            {
                if self.transform_buffer.len() == self.block_size {
                    let ghost block = self.transform_buffer@;
                    let ghost res0 = self.result_buffer@;
                    let mut tmp: Vec<u8> = Vec::new();
                    core::mem::swap(&mut tmp, &mut self.transform_buffer);
                    xor_in_place(&mut tmp);
                    push_bytes(&mut self.result_buffer, tmp.as_slice());
                    proof {
                        vstd::arithmetic::div_mod::lemma_mod_add_multiples_vanish(
                            moved,
                            self.block_size as int,
                        );
                        moved = moved + self.block_size as int;
                        assert(transform_bytes(self.transform_buffer@) =~= Seq::<u8>::empty());
                        assert(self.emitted@ + self.result_buffer@
                            + transform_bytes(self.transform_buffer@)
                            =~= self.emitted@ + res0 + transform_bytes(block));
                    }
                }
                let ghost before = self.transform_buffer@;
                self.transform_buffer.push(buf[i]);
                i = i + 1;
                proof {
                    assert(transform_bytes(before.push(buf@[i - 1]))
                        =~= transform_bytes(before) + transform_bytes(seq![buf@[i - 1]]));
                    assert(transform_bytes(acc0 + buf@.take(i as int))
                        =~= transform_bytes(acc0 + buf@.take(i - 1))
                            + transform_bytes(seq![buf@[i - 1]]));
                }
            }
            proof {
                assert(buf@.take(buf@.len() as int) =~= buf@);
                self.accepted = Ghost(acc0 + buf@);
            }
        }
    }

    /// Pushes any partial transform block into the sink-bound buffer,
    /// transformed. Does not touch the sink.
    pub fn flush(&mut self)
        requires
            old(self).wf(),
        ensures
            final(self).wf(),
            old(self).same_config(final(self)),
            final(self).accepted@ == old(self).accepted@,
            final(self).emitted@ == old(self).emitted@,
            final(self).transform_buffer@.len() == 0,
            final(self).emitted@ + final(self).result_buffer@
                == final(self).applied(final(self).accepted@),
    {
        if !self.bypass && self.transform_buffer.len() > 0 {
            let ghost block = self.transform_buffer@;
            let mut tmp: Vec<u8> = Vec::new();
            core::mem::swap(&mut tmp, &mut self.transform_buffer);
            xor_in_place(&mut tmp);
            push_bytes(&mut self.result_buffer, tmp.as_slice());
            proof {
                assert(transform_bytes(self.transform_buffer@) =~= Seq::<u8>::empty());
                assert(self.emitted@ + self.result_buffer@
                    =~= self.emitted@ + old(self).result_buffer@ + transform_bytes(block));
            }
        }
        proof {
            if self.bypass || old(self).transform_buffer@.len() == 0 {
                assert(self.applied(self.transform_buffer@) =~= Seq::<u8>::empty());
                assert(self.emitted@ + self.result_buffer@
                    =~= self.emitted@ + self.result_buffer@ + self.applied(self.transform_buffer@));
            }
        }
    }

    /// The condition under which `dump` hands out a chunk.
    pub open spec fn dump_due(&self, use_threshold: bool) -> bool {
        if use_threshold {
            self.result_buffer@.len() >= self.threshold
        } else {
            self.result_buffer@.len() > 0
        }
    }

    /// Hands out the accumulated sink-bound bytes if a chunk is due: with
    /// `use_threshold`, once the buffer has reached the threshold; without,
    /// whenever the buffer is nonempty. The host must await the sink's
    /// readiness and write the chunk before asking again.
    pub fn dump(&mut self, use_threshold: bool) -> (r: Option<Vec<u8>>)
        requires
            old(self).wf(),
        ensures
            final(self).wf(),
            old(self).same_config(final(self)),
            final(self).accepted@ == old(self).accepted@,
            final(self).transform_buffer@ == old(self).transform_buffer@,
            old(self).dump_due(use_threshold) ==> {
                &&& r is Some
                &&& r->Some_0@ == old(self).result_buffer@
                &&& final(self).result_buffer@ == Seq::<u8>::empty()
                &&& final(self).emitted@ == old(self).emitted@ + old(self).result_buffer@
            },
            !old(self).dump_due(use_threshold) ==> {
                &&& r is None
                &&& final(self).result_buffer@ == old(self).result_buffer@
                &&& final(self).emitted@ == old(self).emitted@
            },
            use_threshold && old(self).threshold >= 1 ==> final(self).result_buffer@.len()
                < old(self).threshold,
    {
        if (use_threshold && self.result_buffer.len() >= self.threshold)
            || (!use_threshold && self.result_buffer.len() > 0) {
            let mut chunk: Vec<u8> = Vec::new();
            core::mem::swap(&mut chunk, &mut self.result_buffer);
            proof {
                self.emitted = Ghost(self.emitted@ + chunk@);
                assert(self.emitted@ + self.result_buffer@ + self.applied(self.transform_buffer@)
                    =~= old(self).emitted@ + old(self).result_buffer@
                        + old(self).applied(old(self).transform_buffer@));
            }
            Some(chunk)
        } else {
            None
        }
    }
}

} // verus!
