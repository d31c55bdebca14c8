//! Chunked streaming source.
//!
//! A payload is sliced into bounded chunks, strictly in offset order with no
//! gaps or overlaps; the final chunk may be shorter than the bound.  Each
//! chunk delivered to the transport raises a shared bytes-sent counter by the
//! chunk's length, and the counter never exceeds the payload size.

use vstd::math::min;
use vstd::prelude::*;
use vstd::slice::{slice_subrange, slice_to_vec};

verus! {

/// Number of chunks a payload of `n` bytes yields at chunk size `c`,
/// counting one final short chunk when `c` does not divide `n`.
pub open spec fn spec_num_chunks(n: nat, c: nat) -> nat
    decreases n,
{
    if c == 0 || n == 0 {
        0
    } else if n <= c {
        1
    } else {
        1 + spec_num_chunks((n - c) as nat, c)
    }
}

/// The chunk at index `i` when `data` is sliced at size `c`: the bytes from
/// offset `c * i` up to the next chunk boundary or the end of the payload.
pub open spec fn spec_chunk_at(data: Seq<u8>, c: nat, i: int) -> Seq<u8> {
    data.subrange(c * i, min(c * (i + 1), data.len() as int))
}

/// The number of chunks is exactly the ceiling of `n / c`.
pub proof fn lemma_num_chunks_is_ceil(n: nat, c: nat)
    requires
        c > 0,
    ensures
        spec_num_chunks(n, c) == (n + c - 1) / (c as int),
    decreases n,
{
    if n == 0 {
        vstd::arithmetic::div_mod::lemma_basic_div(c - 1, c as int);
    } else if n <= c {
        vstd::arithmetic::div_mod::lemma_div_plus_one(n - 1, c as int);
        vstd::arithmetic::div_mod::lemma_basic_div(n - 1, c as int);
    } else {
        lemma_num_chunks_is_ceil((n - c) as nat, c);
        vstd::arithmetic::div_mod::lemma_div_plus_one(n - 1, c as int);
    }
}

/// The bytes-sent counter an upload attempt shares between the chunk
/// consumer, which raises it, and the progress sampler, which reads it.
/// It never exceeds the total payload size.
pub struct ProgressCounter {
    /// Bytes handed to the transport so far.
    pub bytes_sent: u64,
    /// Size of the whole payload.
    pub total: u64,
}

impl ProgressCounter {
    /// The counter never runs past the payload size.
    pub open spec fn wf(&self) -> bool {
        self.bytes_sent <= self.total
    }

    /// A fresh counter for a payload of `total` bytes.
    pub fn new(total: u64) -> (c: Self)
        ensures
            c.total == total,
            c.bytes_sent == 0,
            c.wf(),
    {
        ProgressCounter { bytes_sent: 0, total }
    }

    /// Record that `n` more bytes were handed to the transport.
    pub fn record(&mut self, n: u64)
        requires
            old(self).wf(),
            old(self).bytes_sent + n <= old(self).total,
        ensures
            final(self).wf(),
            final(self).bytes_sent == old(self).bytes_sent + n,
            final(self).total == old(self).total,
    {
        self.bytes_sent = self.bytes_sent + n;
    }

    /// The current reading.
    pub fn get(&self) -> (b: u64)
        ensures
            b == self.bytes_sent,
    {
        self.bytes_sent
    }
}

/// The producer side of the chunked source: slices the payload
/// sequentially, one bounded chunk per step.
pub struct ChunkSource {
    data: Vec<u8>,
    chunk_size: usize,
    position: usize,
}

impl ChunkSource {
    /// The payload being sliced.
    pub closed spec fn data_seq(&self) -> Seq<u8> {
        self.data@
    }

    /// The chunk size bound.
    pub closed spec fn chunk_len(&self) -> int {
        self.chunk_size as int
    }

    /// The offset of the next chunk.
    pub closed spec fn pos(&self) -> int {
        self.position as int
    }

    /// The bound is positive and the position stays inside the payload.
    pub closed spec fn wf(&self) -> bool {
        self.chunk_size > 0 && self.position <= self.data.len()
    }

    /// A source positioned at the start of `data`.
    pub fn new(data: Vec<u8>, chunk_size: usize) -> (s: Self)
        requires
            chunk_size > 0,
        ensures
            s.wf(),
            s.data_seq() == data@,
            s.chunk_len() == chunk_size,
            s.pos() == 0,
    {
        ChunkSource { data, chunk_size, position: 0 }
    }

    /// The next chunk in offset order: `chunk_size` bytes, or what remains
    /// of the payload if that is less; `None` once the payload is spent.
    pub fn next_chunk(&mut self) -> (c: Option<Vec<u8>>)
        requires
            old(self).wf(),
        ensures
            final(self).wf(),
            final(self).data_seq() == old(self).data_seq(),
            final(self).chunk_len() == old(self).chunk_len(),
            old(self).pos() == old(self).data_seq().len() ==> c is None && final(self).pos()
                == old(self).pos(),
            old(self).pos() < old(self).data_seq().len() ==> (c matches Some(v) && v@ == old(
                self,
            ).data_seq().subrange(
                old(self).pos(),
                min(old(self).pos() + old(self).chunk_len(), old(self).data_seq().len() as int),
            ) && v@.len() > 0 && final(self).pos() == old(self).pos() + v@.len()),
    {
        if self.position >= self.data.len() {
            return None;
        }
        let remaining = self.data.len() - self.position;
        let take = if remaining < self.chunk_size {
            remaining
        } else {
            self.chunk_size
        };
        let end = self.position + take;
        let chunk = slice_to_vec(slice_subrange(self.data.as_slice(), self.position, end));
        self.position = end;
        Some(chunk)
    }
}

/// Slice a whole payload into its chunk sequence, raising the shared
/// counter by each chunk's length as it is produced.
///
/// A payload of `n > 0` bytes at chunk size `c` yields exactly
/// `spec_num_chunks(n, c)` chunks — the ceiling of `n / c` — each one the
/// exact slice of the payload at its offset, and the counter ends at `n`.
pub fn chunk_payload(data: Vec<u8>, chunk_size: usize, counter: &mut ProgressCounter) -> (chunks:
    Vec<Vec<u8>>)
    requires
        chunk_size > 0,
        old(counter).bytes_sent == 0,
        old(counter).total == data@.len(),
    ensures
        chunks@.len() == spec_num_chunks(data@.len(), chunk_size as nat),
        forall|i: int|
            0 <= i < chunks@.len() ==> (#[trigger] chunks@[i])@ == spec_chunk_at(
                data@,
                chunk_size as nat,
                i,
            ),
        final(counter).bytes_sent == data@.len(),
        final(counter).total == old(counter).total,
{
    let ghost data_seq = data@;
    let mut source = ChunkSource::new(data, chunk_size);
    let mut chunks: Vec<Vec<u8>> = Vec::new();
    loop
        invariant
            source.wf(),
            source.data_seq() == data_seq,
            source.chunk_len() == chunk_size,
            chunk_size > 0,
            counter.total == data_seq.len(),
            counter.bytes_sent == source.pos(),
            source.pos() == min(chunk_size * chunks@.len(), data_seq.len() as int),
            chunks@.len() + spec_num_chunks(
                (data_seq.len() - source.pos()) as nat,
                chunk_size as nat,
            ) == spec_num_chunks(data_seq.len(), chunk_size as nat),
            forall|i: int|
                0 <= i < chunks@.len() ==> (#[trigger] chunks@[i])@ == spec_chunk_at(
                    data_seq,
                    chunk_size as nat,
                    i,
                ),
        ensures
            source.pos() == data_seq.len(),
            counter.bytes_sent == data_seq.len(),
            counter.total == data_seq.len(),
            chunks@.len() == spec_num_chunks(data_seq.len(), chunk_size as nat),
            forall|i: int|
                0 <= i < chunks@.len() ==> (#[trigger] chunks@[i])@ == spec_chunk_at(
                    data_seq,
                    chunk_size as nat,
                    i,
                ),
        decreases data_seq.len() - source.pos(),
    {
        let ghost k = chunks@.len() as int;
        let ghost pos_before = source.pos();
        match source.next_chunk() {
            None => {
                break ;
            },
            Some(chunk) => {
                proof {
                    assert(chunk_size * (k + 1) == chunk_size * k + chunk_size) by (nonlinear_arith);
                    assert(pos_before < data_seq.len());
                    assert(pos_before == chunk_size * k);
                }
                counter.record(chunk.len() as u64);
                chunks.push(chunk);
                proof {
                    assert(chunks@[k]@ == spec_chunk_at(data_seq, chunk_size as nat, k));
                    assert(forall|i: int|
                        0 <= i < k ==> (#[trigger] chunks@[i])@ == spec_chunk_at(
                            data_seq,
                            chunk_size as nat,
                            i,
                        ));
                }
            },
        }
    }
    chunks
}

} // verus!
