//! The key namespace: how a store's prefix maps session ids to backend keys.

use vstd::prelude::*;

verus! {

/// The backend key for `key` under an optional prefix: the prefix followed
/// by the key, or the key alone.
pub open spec fn prefixed(prefix: Option<Seq<char>>, key: Seq<char>) -> Seq<char> {
    match prefix {
        Some(p) => p + key,
        None => key,
    }
}

/// The one-character text `*`, which stands for any key in a key pattern.
pub open spec fn wildcard() -> Seq<char> {
    seq!['*']
}

/// The pattern that enumerates a namespace: its prefix followed by `*`.
pub open spec fn namespace_pattern(prefix: Option<Seq<char>>) -> Seq<char> {
    prefixed(prefix, wildcard())
}

/// Whether a backend key lies in the namespace of a prefix: it starts with
/// the prefix. Without a prefix the namespace is the whole key space.
pub open spec fn in_namespace(prefix: Option<Seq<char>>, key: Seq<char>) -> bool {
    match prefix {
        Some(p) => p.is_prefix_of(key),
        None => true,
    }
}

/// Two prefixes overlap when one of them starts with the other. Only
/// then can a key lie in both namespaces.
pub open spec fn overlapping(a: Seq<char>, b: Seq<char>) -> bool {
    a.is_prefix_of(b) || b.is_prefix_of(a)
}

/// Every key that a store makes lies in its own namespace.
pub proof fn lemma_prefixed_in_namespace(prefix: Option<Seq<char>>, key: Seq<char>)
    ensures
        in_namespace(prefix, prefixed(prefix, key)),
{
    match prefix {
        Some(p) => {
            assert((p + key).subrange(0, p.len() as int) =~= p);
        },
        None => {},
    }
}

/// Of two prefixes of one key, the shorter is a prefix of the longer.
proof fn lemma_shorter_prefix(a: Seq<char>, b: Seq<char>, key: Seq<char>)
    requires
        a.is_prefix_of(key),
        b.is_prefix_of(key),
        a.len() <= b.len(),
    ensures
        a.is_prefix_of(b),
{
    assert forall|i: int| 0 <= i < a.len() implies b[i] == a[i] by {
        assert(key.subrange(0, a.len() as int)[i] == key[i]);
        assert(key.subrange(0, b.len() as int)[i] == key[i]);
    }
    assert(b.subrange(0, a.len() as int) =~= a);
}

/// A key that lies in two prefixed namespaces shows that the prefixes overlap.
pub proof fn lemma_shared_key_overlap(a: Seq<char>, b: Seq<char>, key: Seq<char>)
    requires
        a.is_prefix_of(key),
        b.is_prefix_of(key),
    ensures
        overlapping(a, b),
{
    if a.len() <= b.len() {
        lemma_shorter_prefix(a, b, key);
    } else {
        lemma_shorter_prefix(b, a, key);
    }
}

/// Prefixes that differ as texts give different keys to one id. A store
/// without prefix counts as one with the empty prefix.
pub proof fn lemma_distinct_prefixes_distinct_keys(
    a: Option<Seq<char>>,
    b: Option<Seq<char>>,
    id: Seq<char>,
)
    requires
        prefixed(a, Seq::empty()) != prefixed(b, Seq::empty()),
    ensures
        prefixed(a, id) != prefixed(b, id),
{
    let pa = prefixed(a, Seq::empty());
    let pb = prefixed(b, Seq::empty());
    assert(prefixed(a, id) =~= pa + id);
    assert(prefixed(b, id) =~= pb + id);
    if pa + id == pb + id {
        assert(pa.len() == pb.len()) by {
            assert((pa + id).len() == pa.len() + id.len());
            assert((pb + id).len() == pb.len() + id.len());
        }
        assert((pa + id).subrange(0, pa.len() as int) =~= pa);
        assert((pb + id).subrange(0, pb.len() as int) =~= pb);
        assert(pa =~= pb);
    }
}

} // verus!
