//! Content digests of files, computed by SHA-256 over the file's bytes as
//! they are read, chunk by chunk.

use sha2::Digest;
use vstd::prelude::*;

verus! {

/// Number of bytes that are read from a file at a time.
pub const READ_BUFFER_SIZE: usize = 8192;

/// A running SHA-256 computation: a `sha2::Sha256`, seen in contracts only
/// through the bytes it was fed.
#[verifier::external_body]
pub struct ContentHasher {
    state: sha2::Sha256,
}

/// The bytes that were fed to a hasher so far, in order.
pub uninterp spec fn fed(hasher: ContentHasher) -> Seq<u8>;

/// The SHA-256 digest of `data`, written in lower-case hexadecimal.
pub uninterp spec fn sha256_hex(data: Seq<u8>) -> Seq<char>;

/// `Sha256::new`: a hasher that was fed nothing yet.
#[verifier::external_body]
fn hasher_new() -> (h: ContentHasher)
    ensures
        fed(h) == Seq::<u8>::empty(),
{
    ContentHasher { state: sha2::Sha256::new() }
}

/// `Digest::update`: feeds `data` to the hasher, after what it was fed before.
#[verifier::external_body]
fn hasher_update(h: &mut ContentHasher, data: &[u8])
    ensures
        fed(*final(h)) == fed(*old(h)) + data@,
{
    h.state.update(data);
}

/// `Digest::finalize`, its output written in lower-case hexadecimal: the
/// digest of all that the hasher was fed.
#[verifier::external_body]
fn hasher_finish(h: ContentHasher) -> (r: String)
    ensures
        r@ == sha256_hex(fed(h)),
{
    format!("{:x}", h.state.finalize())
}

impl ContentHasher {
    /// A hasher that was fed nothing yet.
    pub fn new() -> (h: Self)
        ensures
            fed(h) == Seq::<u8>::empty(),
    {
        hasher_new()
    }

    /// Feeds the next chunk of a file.
    pub fn update(&mut self, chunk: &[u8])
        ensures
            fed(*final(self)) == fed(*old(self)) + chunk@,
    {
        hasher_update(self, chunk)
    }

    /// The digest of all that was fed, in lower-case hexadecimal.
    pub fn finish(self) -> (r: String)
        ensures
            r@ == sha256_hex(fed(self)),
    {
        hasher_finish(self)
    }
}

/// All bytes of `chunks`, in order.
pub open spec fn flattened(chunks: Seq<Vec<u8>>) -> Seq<u8>
    decreases chunks.len(),
{
    if chunks.len() == 0 {
        Seq::empty()
    } else {
        flattened(chunks.drop_last()) + chunks.last()@
    }
}

/// The digest of a file whose content is `chunks`, one after another.
pub fn hash_chunks(chunks: &Vec<Vec<u8>>) -> (r: String)
    ensures
        r@ == sha256_hex(flattened(chunks@)),
{
    let mut hasher = ContentHasher::new();
    let mut i: usize = 0;
    assert(chunks@.take(0) =~= Seq::<Vec<u8>>::empty());
    while i < chunks.len()
        invariant
            i <= chunks@.len(),
            fed(hasher) == flattened(chunks@.take(i as int)),
        decreases chunks.len() - i,
    {
        assert(chunks@.take(i + 1).drop_last() == chunks@.take(i as int));
        hasher.update(chunks[i].as_slice());
        i += 1;
    }
    assert(chunks@.take(chunks@.len() as int) == chunks@);
    hasher.finish()
}

/// The digest of `data`.
pub fn hash_bytes(data: &[u8]) -> (r: String)
    ensures
        r@ == sha256_hex(data@),
{
    let mut hasher = ContentHasher::new();
    hasher.update(data);
    assert(Seq::<u8>::empty() + data@ =~= data@);
    hasher.finish()
}

} // verus!
