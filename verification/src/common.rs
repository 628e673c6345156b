//! Plain-value building blocks shared by the registry and the vault.
use vstd::prelude::*;

verus! {

/// An account or contract identity. The ledger host resolves real addresses;
/// the library only needs to tell them apart and to order them.
pub type Address = u64;

/// A 32-byte digest or fixed-width identifier (metadata hashes, emitter
/// addresses, bridge recipients).
pub type Hash32 = [u8; 32];

/// Byte-wise equality of two byte slices.
pub fn bytes_eq(a: &[u8], b: &[u8]) -> (r: bool)
    ensures
        r == (a@ == b@),
{
    if a.len() != b.len() {
        return false;
    }
    let n = a.len();
    let mut i: usize = 0;
    while i < n
        invariant
            n == a@.len(),
            n == b@.len(),
            i <= n,
            forall|j: int| 0 <= j < i ==> a@[j] == b@[j],
        decreases n - i,
    {
        if a[i] != b[i] {
            assert(a@[i as int] != b@[i as int]);
            return false;
        }
        i = i + 1;
    }
    assert(a@ =~= b@);
    true
}

/// Equality of two 32-byte values.
pub fn hash_eq(a: &Hash32, b: &Hash32) -> (r: bool)
    ensures
        r == (a@ == b@),
{
    bytes_eq(a.as_slice(), b.as_slice())
}

/// An owned copy of a byte string.
pub fn copy_bytes(v: &Vec<u8>) -> (r: Vec<u8>)
    ensures
        r@ == v@,
{
    let mut out: Vec<u8> = Vec::new();
    let n = v.len();
    let mut i: usize = 0;
    while i < n
        invariant
            n == v@.len(),
            i <= n,
            out@ == v@.subrange(0, i as int),
        decreases n - i,
    {
        out.push(v[i]);
        i = i + 1;
        assert(out@ =~= v@.subrange(0, i as int));
    }
    assert(v@.subrange(0, n as int) =~= v@);
    out
}

/// Whether `v` starts with the bytes of `prefix`.
pub open spec fn has_prefix(v: Seq<u8>, prefix: Seq<u8>) -> bool {
    prefix.len() <= v.len() && v.subrange(0, prefix.len() as int) == prefix
}

/// Whether `v` starts with the bytes of `prefix` (executable form).
pub fn starts_with(v: &[u8], prefix: &[u8]) -> (r: bool)
    ensures
        r == has_prefix(v@, prefix@),
{
    if prefix.len() > v.len() {
        return false;
    }
    let n = prefix.len();
    let mut i: usize = 0;
    while i < n
        invariant
            n == prefix@.len(),
            n <= v@.len(),
            i <= n,
            forall|j: int| 0 <= j < i ==> v@[j] == prefix@[j],
        decreases n - i,
    {
        if v[i] != prefix[i] {
            assert(v@.subrange(0, n as int)[i as int] != prefix@[i as int]);
            return false;
        }
        i = i + 1;
    }
    assert(v@.subrange(0, n as int) =~= prefix@);
    true
}

/// Appending an element to a sequence adds it to the sequence's set.
pub proof fn lemma_push_to_set<A>(s: Seq<A>, x: A)
    ensures
        s.push(x).to_set() == s.to_set().insert(x),
{
    let t = s.push(x);
    assert forall|y: A| t.contains(y) <==> s.contains(y) || y == x by {
        if s.contains(y) {
            let j = choose|j: int| 0 <= j < s.len() && s[j] == y;
            assert(t[j] == y);
        }
        if y == x {
            assert(t[s.len() as int] == x);
        }
        if t.contains(y) {
            let j = choose|j: int| 0 <= j < t.len() && t[j] == y;
            if j < s.len() {
                assert(s[j] == y);
            }
        }
    }
    assert(t.to_set() =~= s.to_set().insert(x));
}

} // verus!
