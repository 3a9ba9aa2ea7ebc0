//! Content digests: SHA-256 over a stream of bytes.
//!
//! A file is hashed piece by piece, so that its size never bounds the memory
//! in use: a `ContentHasher` takes the pieces in order and gives the digest
//! of their concatenation.
use vstd::prelude::*;
use sha2::Digest as Sha2Digest;

verus! {

/// A 256-bit content digest.
pub type Digest = [u8; 32];

/// The SHA-256 digest of a byte string, 32 bytes long.
pub uninterp spec fn sha256_of(content: Seq<u8>) -> Seq<u8>;

/// The bytes that a SHA-256 state has absorbed so far.
pub uninterp spec fn absorbed(state: Sha256State) -> Seq<u8>;

/// The running state of one SHA-256 computation, as `sha2::Sha256` keeps it.
#[verifier::external_body]
pub struct Sha256State {
    inner: sha2::Sha256,
}

/// `sha2::Sha256::new`: a fresh state, which has absorbed nothing.
#[verifier::external_body]
fn sha256_new() -> (state: Sha256State)
    ensures
        absorbed(state) == Seq::<u8>::empty(),
{
    Sha256State { inner: sha2::Sha256::new() }
}

/// `sha2::Sha256::update`: the state absorbs `data` after what it held.
#[verifier::external_body]
fn sha256_update(state: &mut Sha256State, data: &[u8])
    ensures
        absorbed(*final(state)) == absorbed(*old(state)) + data@,
{
    state.inner.update(data)
}

/// `sha2::Sha256::finalize`: the digest of everything the state absorbed.
#[verifier::external_body]
fn sha256_finalize(state: Sha256State) -> (digest: Digest)
    ensures
        digest@ == sha256_of(absorbed(state)),
{
    state.inner.finalize().into()
}

/// An incremental SHA-256 computation over the pieces of one content.
pub struct ContentHasher {
    state: Sha256State,
}

impl ContentHasher {
    /// The bytes fed so far, in order.
    pub closed spec fn fed(&self) -> Seq<u8> {
        absorbed(self.state)
    }

    /// A hasher that has been fed nothing.
    pub fn new() -> (hasher: ContentHasher)
        ensures
            hasher.fed() == Seq::<u8>::empty(),
    {
        ContentHasher { state: sha256_new() }
    }

    /// Feeds the next piece of the content.
    pub fn update(&mut self, piece: &[u8])
        ensures
            final(self).fed() == old(self).fed() + piece@,
    {
        sha256_update(&mut self.state, piece)
    }

    /// The digest of all that was fed.
    pub fn finalize(self) -> (digest: Digest)
        ensures
            digest@ == sha256_of(self.fed()),
    {
        sha256_finalize(self.state)
    }
}

/// The digest of a content held in one piece.
pub fn digest_of(content: &[u8]) -> (digest: Digest)
    ensures
        digest@ == sha256_of(content@),
{
    let mut hasher = ContentHasher::new();
    hasher.update(content);
    assert(hasher.fed() =~= content@);
    hasher.finalize()
}

/// The digest of a content that comes in pieces: that of their concatenation.
pub fn digest_of_pieces(pieces: &Vec<Vec<u8>>) -> (digest: Digest)
    ensures
        digest@ == sha256_of(pieces.deep_view().flatten()),
{
    let mut hasher = ContentHasher::new();
    let mut i: usize = 0;
    while i < pieces.len()
        invariant
            i <= pieces.len(),
            hasher.fed() == pieces.deep_view().take(i as int).flatten(),
        decreases pieces.len() - i,
    {
        proof {
            let done = pieces.deep_view().take(i as int);
            let next = pieces.deep_view().take(i + 1);
            assert(next.drop_last() =~= done);
            assert(next.last() == pieces@[i as int]@);
            next.lemma_flatten_and_flatten_alt_are_equivalent();
            done.lemma_flatten_and_flatten_alt_are_equivalent();
        }
        hasher.update(pieces[i].as_slice());
        i += 1;
    }
    assert(pieces.deep_view().take(i as int) =~= pieces.deep_view());
    hasher.finalize()
}

/// Hashing is a function of the content alone: the same bytes give the same
/// digest, whenever and through whichever hasher they are fed.
pub proof fn same_content_same_digest(first: Seq<u8>, second: Seq<u8>)
    requires
        first == second,
    ensures
        sha256_of(first) == sha256_of(second),
{
}

/// Whether two digests are the same, byte for byte.
pub fn same_digest(a: &Digest, b: &Digest) -> (same: bool)
    ensures
        same == (a@ == b@),
{
    let mut i: usize = 0;
    while i < 32
        invariant
            i <= 32,
            forall|k: int| 0 <= k < i ==> a@[k] == b@[k],
        decreases 32 - i,
    {
        if a[i] != b[i] {
            return false;
        }
        i += 1;
    }
    assert(a@ =~= b@);
    true
}

} // verus!
