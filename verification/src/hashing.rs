//! Hashing a byte stream with SHA-256, fed chunk by chunk as it is read.
use sha2::{Digest, Sha256};
use vstd::prelude::*;

verus! {

/// A SHA-256 hasher (`sha2::Sha256`), held opaque: what it has been fed is
/// [`sha256_input`].
#[verifier::external_body]
pub struct Sha256Hasher {
    inner: Sha256,
}

/// The bytes a SHA-256 hasher has been fed so far.
pub uninterp spec fn sha256_input(h: Sha256Hasher) -> Seq<u8>;

/// The SHA-256 digest of `data`, as finalizing a hasher fed `data` gives it.
pub uninterp spec fn sha256_digest(data: Seq<u8>) -> Seq<u8>;

/// `Sha256::new`: a hasher that has been fed nothing.
#[verifier::external_body]
fn sha256_new() -> (h: Sha256Hasher)
    ensures
        sha256_input(h) == Seq::<u8>::empty(),
{
    Sha256Hasher { inner: Sha256::new() }
}

/// `Digest::update`: feeds `data` to the hasher.
#[verifier::external_body]
fn sha256_update(h: &mut Sha256Hasher, data: &[u8])
    ensures
        sha256_input(*final(h)) == sha256_input(*old(h)) + data@,
{
    h.inner.update(data)
}

/// `Digest::finalize`: the 32-byte digest of everything fed.
#[verifier::external_body]
fn sha256_finalize(h: Sha256Hasher) -> (d: Vec<u8>)
    ensures
        d@ == sha256_digest(sha256_input(h)),
        d@.len() == 32,
{
    h.inner.finalize().to_vec()
}

/// A worker that hashes the chunks of a stream as they are read, until it
/// reads an empty chunk (the end of the stream).
pub struct HashWorker {
    hasher: Sha256Hasher,
    buffer: usize,
}

impl HashWorker {
    /// The bytes hashed so far.
    pub closed spec fn consumed(&self) -> Seq<u8> {
        sha256_input(self.hasher)
    }

    /// The size of the buffer to read chunks into.
    pub closed spec fn buffer_len(&self) -> usize {
        self.buffer
    }

    /// A worker reading chunks of at most `buffer` bytes.
    pub fn new(buffer: usize) -> (w: Self)
        ensures
            w.consumed() == Seq::<u8>::empty(),
            w.buffer_len() == buffer,
    {
        HashWorker { hasher: sha256_new(), buffer }
    }

    /// The size of the buffer to read chunks into.
    pub fn buffer_size(&self) -> (n: usize)
        ensures
            n == self.buffer_len(),
    {
        self.buffer
    }

    /// Takes one chunk read from the stream. An empty chunk is the end of
    /// the stream: nothing is hashed and the worker should stop reading.
    pub fn on_read(&mut self, chunk: &[u8]) -> (more: bool)
        ensures
            more == (chunk@.len() > 0),
            final(self).consumed() == old(self).consumed() + chunk@,
            final(self).buffer_len() == old(self).buffer_len(),
    {
        if chunk.len() == 0 {
            assert(old(self).consumed() + chunk@ =~= old(self).consumed());
            return false;
        }
        sha256_update(&mut self.hasher, chunk);
        true
    }

    /// The digest of everything hashed.
    pub fn finish(self) -> (d: Vec<u8>)
        ensures
            d@ == sha256_digest(self.consumed()),
            d@.len() == 32,
    {
        sha256_finalize(self.hasher)
    }
}

/// The concatenation of `chunks` up to, not including, the first empty one.
pub open spec fn stream_prefix(chunks: Seq<Seq<u8>>) -> Seq<u8>
    decreases chunks.len(),
{
    if chunks.len() == 0 || chunks[0].len() == 0 {
        Seq::empty()
    } else {
        chunks[0] + stream_prefix(chunks.drop_first())
    }
}

/// What the stream read as `cs` holds: every chunk before the first empty
/// one (the end of the stream), joined in order; all of them when none is
/// empty.
pub proof fn lemma_stream_is_chunks_before_end(cs: Seq<Seq<u8>>, k: int)
    requires
        0 <= k <= cs.len(),
        forall|i: int| 0 <= i < k ==> #[trigger] cs[i].len() > 0,
        k == cs.len() || cs[k].len() == 0,
    ensures
        stream_prefix(cs) == cs.take(k).flatten(),
    decreases k,
{
    if k == 0 {
        assert(cs.take(0) =~= Seq::<Seq<u8>>::empty());
    } else {
        let rest = cs.drop_first();
        assert forall|i: int| 0 <= i < k - 1 implies #[trigger] rest[i].len() > 0 by {
            assert(rest[i] == cs[i + 1]);
        }
        if k < cs.len() {
            assert(rest[k - 1] == cs[k]);
        }
        lemma_stream_is_chunks_before_end(rest, k - 1);
        assert(cs[0].len() > 0);
        assert(cs.take(k).drop_first() =~= rest.take(k - 1));
        assert(cs.take(k).first() == cs[0]);
    }
}

/// The digest of a stream read as `chunks`: reading ends at the first
/// empty chunk, or after the last one.
pub fn hash_chunks(chunks: &Vec<Vec<u8>>) -> (d: Vec<u8>)
    ensures
        d@ == sha256_digest(stream_prefix(chunks.deep_view())),
        (forall|i: int| 0 <= i < chunks.len() ==> #[trigger] chunks[i]@.len() > 0) ==> d@
            == sha256_digest(chunks.deep_view().flatten()),
        forall|k: int|
            0 <= k < chunks.len() && #[trigger] chunks[k]@.len() == 0 && (forall|i: int|
                0 <= i < k ==> #[trigger] chunks[i]@.len() > 0) ==> d@ == sha256_digest(
                chunks.deep_view().take(k).flatten(),
            ),
{
    proof {
        let cs = chunks.deep_view();
        if forall|i: int| 0 <= i < chunks.len() ==> #[trigger] chunks[i]@.len() > 0 {
            assert forall|i: int| 0 <= i < cs.len() implies #[trigger] cs[i].len() > 0 by {
                assert(cs[i] == chunks[i]@);
            }
            lemma_stream_is_chunks_before_end(cs, cs.len() as int);
            assert(cs.take(cs.len() as int) == cs);
        }
        assert forall|k: int|
            0 <= k < chunks.len() && #[trigger] chunks[k]@.len() == 0 && (forall|i: int|
                0 <= i < k ==> #[trigger] chunks[i]@.len() > 0) implies stream_prefix(cs)
            == cs.take(k).flatten() by {
            assert forall|i: int| 0 <= i < k implies #[trigger] cs[i].len() > 0 by {
                assert(cs[i] == chunks[i]@);
            }
            assert(cs[k] == chunks[k]@);
            lemma_stream_is_chunks_before_end(cs, k);
        }
    }
    let ghost cs = chunks.deep_view();
    let mut w = HashWorker::new(0);
    let mut i: usize = 0;
    assert(cs.skip(0) == cs);
    assert(w.consumed() + stream_prefix(cs) =~= stream_prefix(cs));
    while i < chunks.len()
        invariant
            cs == chunks.deep_view(),
            0 <= i <= chunks.len(),
            w.consumed() + stream_prefix(cs.skip(i as int)) == stream_prefix(cs),
        ensures
            w.consumed() == stream_prefix(cs),
        decreases chunks.len() - i,
    {
        proof {
            assert(cs[i as int] == chunks[i as int]@);
            assert(cs.skip(i as int).drop_first() == cs.skip(i + 1));
            assert(cs.skip(i as int)[0] == cs[i as int]);
        }
        let ghost prev = w.consumed();
        if !w.on_read(chunks[i].as_slice()) {
            assert(w.consumed() + stream_prefix(cs.skip(i as int)) =~= w.consumed());
            break;
        }
        assert(prev + stream_prefix(cs.skip(i as int)) =~= (prev + cs[i as int]) + stream_prefix(
            cs.skip(i + 1),
        ));
        i = i + 1;
    }
    proof {
        if i == chunks.len() {
            assert(stream_prefix(cs.skip(i as int)) == Seq::<u8>::empty());
            assert(w.consumed() + Seq::<u8>::empty() =~= w.consumed());
        }
    }
    w.finish()
}

} // verus!
