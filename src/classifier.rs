//! Turning a runtime image identifier (`"sha256:<hex>"`) into its digest, and matching
//! digests against a configured prefix.
use vstd::prelude::*;

verus! {

/// The character that parts the algorithm name from the digest in an image identifier.
pub const SEPARATOR: char = ':';

/// `k` is the position of the first separator in `s`.
pub open spec fn is_first_separator(s: Seq<char>, k: int) -> bool {
    &&& 0 <= k < s.len()
    &&& s[k] == SEPARATOR
    &&& forall|j: int| 0 <= j < k ==> s[j] != SEPARATOR
}

/// `s` holds no separator at all.
pub open spec fn separator_free(s: Seq<char>) -> bool {
    forall|j: int| 0 <= j < s.len() ==> s[j] != SEPARATOR
}

/// The digest of an image identifier: what follows its first separator, when there is
/// a separator and something follows it.
pub open spec fn digest_of(id: Seq<char>) -> Option<Seq<char>> {
    if exists|k: int| is_first_separator(id, k) {
        let k = choose|k: int| is_first_separator(id, k);
        if k + 1 < id.len() {
            Some(id.subrange(k + 1, id.len() as int))
        } else {
            None
        }
    } else {
        None
    }
}

/// An image identifier belongs to the class of `prefix` when it has a digest and
/// `prefix` is a literal prefix of that digest.
pub open spec fn image_matches(prefix: Seq<char>, id: Seq<char>) -> bool {
    match digest_of(id) {
        Some(d) => prefix.is_prefix_of(d),
        None => false,
    }
}

proof fn lemma_first_separator_unique(s: Seq<char>, a: int, b: int)
    requires
        is_first_separator(s, a),
        is_first_separator(s, b),
    ensures
        a == b,
{
}

/// Extracting the digest from `before + ":" + digest`, where `before` holds no separator
/// and `digest` is not empty, gives back exactly `digest`.
pub proof fn lemma_digest_is_suffix(before: Seq<char>, digest: Seq<char>)
    requires
        separator_free(before),
        digest.len() > 0,
    ensures
        digest_of(before + seq![SEPARATOR] + digest) == Some(digest),
{
    let id = before + seq![SEPARATOR] + digest;
    let k = before.len() as int;
    assert(is_first_separator(id, k));
    let c = choose|c: int| is_first_separator(id, c);
    lemma_first_separator_unique(id, c, k);
    assert(id.subrange(k + 1, id.len() as int) =~= digest);
}

/// An identifier with no separator, or whose first separator ends it, has no digest.
pub proof fn lemma_no_digest(id: Seq<char>)
    requires
        separator_free(id) || (id.len() > 0 && id.last() == SEPARATOR && separator_free(
            id.drop_last(),
        )),
    ensures
        digest_of(id) is None,
{
    if exists|k: int| is_first_separator(id, k) {
        let k = choose|k: int| is_first_separator(id, k);
        if k + 1 < id.len() {
            assert(id.drop_last()[k] == id[k]);
        }
    }
}

/// The digest of an image identifier, or `None` where the identifier has no separator
/// or nothing after its first one.
pub fn image_extract_hash_from_id(id: &str) -> (r: Option<&str>)
    ensures
        r matches Some(d) ==> digest_of(id@) == Some(d@),
        r is None ==> digest_of(id@) is None,
{
    let n = id.unicode_len();
    let mut i: usize = 0;
    while i < n
        invariant
            n == id@.len(),
            i <= n,
            forall|j: int| 0 <= j < i ==> id@[j] != SEPARATOR,
        decreases n - i,
    {
        if id.get_char(i) == SEPARATOR {
            proof {
                assert(is_first_separator(id@, i as int));
                let c = choose|c: int| is_first_separator(id@, c);
                lemma_first_separator_unique(id@, c, i as int);
            }
            if i + 1 < n {
                return Some(id.substring_char(i + 1, n));
            } else {
                return None;
            }
        }
        i = i + 1;
    }
    None
}

/// Whether `prefix` is a literal prefix of `digest`.
pub fn digest_has_prefix(prefix: &str, digest: &str) -> (r: bool)
    ensures
        r == prefix@.is_prefix_of(digest@),
{
    let np = prefix.unicode_len();
    let nd = digest.unicode_len();
    if np > nd {
        return false;
    }
    let mut i: usize = 0;
    while i < np
        invariant
            np == prefix@.len(),
            nd == digest@.len(),
            np <= nd,
            i <= np,
            forall|j: int| 0 <= j < i ==> prefix@[j] == digest@[j],
        decreases np - i,
    {
        if prefix.get_char(i) != digest.get_char(i) {
            return false;
        }
        i = i + 1;
    }
    true
}

/// Whether the image identifier `id` belongs to the class of `prefix`.
pub fn classify(prefix: &str, id: &str) -> (r: bool)
    ensures
        r == image_matches(prefix@, id@),
{
    match image_extract_hash_from_id(id) {
        Some(d) => digest_has_prefix(prefix, d),
        None => false,
    }
}

} // verus!
