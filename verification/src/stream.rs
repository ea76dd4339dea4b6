//! The behavioral model of a stream: whatever transport backs it, an open
//! stream is one ordered, reliable byte channel. This module pins that
//! contract down for one direction — the bytes written and not yet read,
//! oldest first — and proves round-trip byte fidelity over it. The
//! transport-specific handles that carry real bytes live outside the
//! library, behind this contract.

use vstd::prelude::*;

verus! {

/// What `write` does to the in-flight bytes: the buffer is appended whole,
/// behind everything written earlier.
pub open spec fn spec_write(pending: Seq<u8>, buf: Seq<u8>) -> Seq<u8> {
    pending + buf
}

/// What `read` with room for `max` bytes does: it delivers the oldest
/// pending bytes, as many as fit, in order, and leaves the rest.
pub open spec fn spec_read(pending: Seq<u8>, max: nat) -> (Seq<u8>, Seq<u8>) {
    if max < pending.len() {
        (pending.take(max as int), pending.skip(max as int))
    } else {
        (pending, Seq::empty())
    }
}

/// One direction of an open stream: the bytes accepted by `write` and not
/// yet delivered by `read`, oldest first.
pub struct StreamModel {
    pub pending: Vec<u8>,
}

impl StreamModel {
    /// A freshly established stream carries no bytes.
    pub fn new() -> (r: Self)
        ensures
            r.pending@ == Seq::<u8>::empty(),
    {
        StreamModel { pending: Vec::new() }
    }

    /// Accept a caller buffer: every byte of `buf` enters the stream, in
    /// order, behind everything written earlier. The whole buffer is
    /// accepted.
    pub fn write(&mut self, buf: &[u8]) -> (n: usize)
        ensures
            n == buf@.len(),
            final(self).pending@ == spec_write(old(self).pending@, buf@),
    {
        self.pending.extend_from_slice(buf);
        buf.len()
    }

    /// Deliver up to `max` bytes into a caller buffer: exactly the oldest
    /// pending bytes, in the order they were written.
    pub fn read(&mut self, max: usize) -> (out: Vec<u8>)
        ensures
            (out@, final(self).pending@) == spec_read(old(self).pending@, max as nat),
    {
        let k: usize = if max < self.pending.len() {
            max
        } else {
            self.pending.len()
        };
        let mut tail = self.pending.split_off(k);
        core::mem::swap(&mut self.pending, &mut tail);
        proof {
            assert(old(self).pending@.take(old(self).pending@.len() as int) =~= old(
                self,
            ).pending@);
            assert(old(self).pending@.skip(old(self).pending@.len() as int) =~= Seq::<
                u8,
            >::empty());
        }
        tail
    }

    /// The pooling-metadata query: every transport behind this contract is
    /// reusable for pooling, since none carries per-connection affinity.
    pub fn reusable_for_pooling(&self) -> (r: bool)
        ensures
            r,
    {
        true
    }
}

/// Round-trip byte fidelity: after `buf` is written, reading the stream dry
/// delivers every byte that was pending followed by every byte of `buf`, in
/// order — nothing lost, duplicated or reordered. On a fresh stream the
/// bytes read are exactly the bytes written.
pub proof fn lemma_write_read_round_trip(pending: Seq<u8>, buf: Seq<u8>)
    ensures
        ({
            let after = spec_write(pending, buf);
            let (out, rest) = spec_read(after, after.len());
            out == pending + buf && rest == Seq::<u8>::empty()
        }),
        ({
            let (out, rest) = spec_read(spec_write(Seq::empty(), buf), buf.len());
            out == buf && rest == Seq::<u8>::empty()
        }),
{
}

} // verus!
