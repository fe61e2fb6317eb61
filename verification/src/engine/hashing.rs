//! BLAKE3 content hashing, fed incrementally as file data is read or received.

use vstd::prelude::*;

verus! {

#[verifier::external_type_specification]
#[verifier::external_body]
pub struct ExBlake3Hasher(blake3::Hasher);

/// The 32-byte BLAKE3 digest (regular, unkeyed mode) of `input`.
pub uninterp spec fn blake3_digest(input: Seq<u8>) -> Seq<u8>;

/// An incremental BLAKE3 hash state together with the bytes it has absorbed. The
/// fields are written only by the trusted `fresh_hasher` and `absorb`.
pub struct ContentHasher {
    state: blake3::Hasher,
    absorbed: Ghost<Seq<u8>>,
}

/// `blake3::Hasher::new`: a fresh hash state for the regular hash function, paired
/// with the empty input. This is the only place where a hash state and its recorded
/// input are put together; afterwards only `absorb` changes either.
#[verifier::external_body]
fn fresh_hasher() -> (h: ContentHasher)
    ensures
        h.absorbed@ == Seq::<u8>::empty(),
{
    ContentHasher { state: blake3::Hasher::new(), absorbed: Ghost(Seq::empty()) }
}

/// `blake3::Hasher::update`: adds `input` to the hash state. The claim is that the
/// state afterwards stands for the earlier input followed by `input`, as the crate
/// documents ("these two lines are equivalent": incremental updates and a one-shot
/// hash of the concatenation). Inputs whose total length exceeds `u64::MAX` are left out.
#[verifier::external_body]
fn absorb(h: &mut ContentHasher, input: &[u8])
    requires
        old(h).absorbed@.len() + input@.len() <= u64::MAX,
    ensures
        final(h).absorbed@ == old(h).absorbed@ + input@,
{
    h.state.update(input);
}

/// `blake3::Hasher::finalize` followed by `Hash::as_bytes`: the digest of all the
/// input absorbed so far (the method is idempotent and leaves the state unchanged).
#[verifier::external_body]
fn digest_of(h: &ContentHasher) -> (d: [u8; 32])
    ensures
        d@ == blake3_digest(h.absorbed@),
{
    *h.state.finalize().as_bytes()
}

impl ContentHasher {
    /// The bytes fed to this hasher so far, in order.
    pub closed spec fn absorbed(&self) -> Seq<u8> {
        self.absorbed@
    }

    /// A hasher that has absorbed nothing.
    pub fn new() -> (h: Self)
        ensures
            h.absorbed() == Seq::<u8>::empty(),
    {
        fresh_hasher()
    }

    /// Feeds `data` after everything absorbed so far.
    pub fn update(&mut self, data: &[u8])
        requires
            old(self).absorbed().len() + data@.len() <= u64::MAX,
        ensures
            final(self).absorbed() == old(self).absorbed() + data@,
    {
        absorb(self, data);
    }

    /// The BLAKE3 digest of everything absorbed so far.
    pub fn finalize(&self) -> (d: [u8; 32])
        ensures
            d@ == blake3_digest(self.absorbed()),
    {
        digest_of(self)
    }
}

/// Whether two digests are equal, byte for byte.
pub fn digests_equal(a: &[u8; 32], b: &[u8; 32]) -> (eq: bool)
    ensures
        eq == (a@ == b@),
{
    let mut i: usize = 0;
    while i < 32
        invariant
            i <= 32,
            a@.len() == 32,
            b@.len() == 32,
            forall|k: int| 0 <= k < i ==> a@[k] == b@[k],
        decreases 32 - i,
    {
        if a[i] != b[i] {
            return false;
        }
        i += 1;
    }
    assert(a@ =~= b@);
    true
}

} // verus!
