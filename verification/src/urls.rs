//! URL handling for the "last visited URL" feature: a window's current URL
//! is remembered with its fragment stripped, so that reopening the window
//! does not jump back to an old in-page anchor.
use vstd::prelude::*;

verus! {

/// What `url::Url::parse` followed by serialization yields on a text:
/// `None` when the text is not a well-formed URL, otherwise the normalized
/// serialization. A function of the text alone.
pub uninterp spec fn normalized_url(s: Seq<char>) -> Option<Seq<char>>;

/// Relies on url::Url::parse and url::Url's Display serialization: parsing
/// succeeds exactly on well-formed URL text, and the serialization of the
/// parsed value depends on the input text alone.
#[verifier::external_body]
fn normalize_url(s: &str) -> (r: Option<String>)
    ensures
        r is Some <==> normalized_url(s@) is Some,
        r matches Some(n) ==> normalized_url(s@) == Some(n@),
{
    match url::Url::parse(s) {
        Ok(u) => Some(u.to_string()),
        Err(_) => None,
    }
}

/// True when the text holds no fragment delimiter.
pub open spec fn hash_free(s: Seq<char>) -> bool {
    forall|i: int| 0 <= i < s.len() ==> s[i] != '#'
}

/// Length of the prefix of `s` before its first '#', or all of `s`.
pub open spec fn hash_prefix_len(s: Seq<char>) -> int
    decreases s.len(),
{
    if s.len() == 0 {
        0
    } else if s[0] == '#' {
        0
    } else {
        1 + hash_prefix_len(s.drop_first())
    }
}

/// A serialized URL with its fragment stripped: everything before the first
/// '#'. In a WHATWG serialization '#' occurs only as the fragment delimiter,
/// so this is exactly the fragment-free serialization.
pub open spec fn strip_at_hash(s: Seq<char>) -> Seq<char> {
    s.take(hash_prefix_len(s))
}

proof fn lemma_hash_prefix(s: Seq<char>)
    ensures
        0 <= hash_prefix_len(s) <= s.len(),
        forall|i: int| 0 <= i < hash_prefix_len(s) ==> s[i] != '#',
        hash_prefix_len(s) < s.len() ==> s[hash_prefix_len(s)] == '#',
    decreases s.len(),
{
    if s.len() > 0 && s[0] != '#' {
        let d = s.drop_first();
        lemma_hash_prefix(d);
        assert forall|i: int| 0 <= i < hash_prefix_len(s) implies s[i] != '#' by {
            if i > 0 {
                assert(d[i - 1] != '#');
            }
        }
    }
}

/// The prefix length is pinned by its characterization: any cut at a '#'
/// whose prefix is '#'-free is the cut.
proof fn lemma_hash_prefix_unique(s: Seq<char>, i: int)
    requires
        0 <= i <= s.len(),
        forall|j: int| 0 <= j < i ==> s[j] != '#',
        i < s.len() ==> s[i] == '#',
    ensures
        hash_prefix_len(s) == i,
    decreases s.len(),
{
    if s.len() == 0 {
    } else if s[0] == '#' {
        assert(i == 0);
    } else {
        let d = s.drop_first();
        assert(i >= 1);
        assert forall|j: int| 0 <= j < i - 1 implies d[j] != '#' by {
            assert(s[j + 1] != '#');
        }
        lemma_hash_prefix_unique(d, i - 1);
    }
}

/// Cut a text at its first '#', keeping what precedes it.
fn truncate_at_hash(s: &str) -> (r: String)
    ensures
        r@ == strip_at_hash(s@),
{
    proof {
        lemma_hash_prefix(s@);
    }
    let n = s.unicode_len();
    let mut i: usize = 0;
    while i < n
        invariant
            n == s@.len(),
            i <= n,
            forall|j: int| 0 <= j < i ==> s@[j] != '#',
        decreases n - i,
    {
        if s.get_char(i) == '#' {
            proof {
                lemma_hash_prefix_unique(s@, i as int);
            }
            let prefix = s.substring_char(0, i);
            return prefix.to_owned();
        }
        i = i + 1;
    }
    proof {
        lemma_hash_prefix_unique(s@, n as int);
        assert(s@.take(n as int) =~= s@);
    }
    s.to_owned()
}

/// The URL text the shell remembers for `u`: the fragment-stripped
/// serialization when `u` parses as a URL, and `u` itself when it does not.
pub open spec fn spec_strip_hash(u: Seq<char>) -> Seq<char> {
    match normalized_url(u) {
        Some(n) => strip_at_hash(n),
        None => u,
    }
}

/// Strip the fragment from a URL: parse, drop the fragment, serialize.
/// Text that does not parse as a URL is used as-is.
pub fn strip_hash_from_url(url: &String) -> (r: String)
    ensures
        r@ == spec_strip_hash(url@),
{
    match normalize_url(url.as_str()) {
        Some(n) => truncate_at_hash(n.as_str()),
        None => url.clone(),
    }
}

/// Cutting at the first '#' is idempotent, and a '#'-free text is unchanged.
pub proof fn lemma_strip_at_hash_idempotent(s: Seq<char>)
    ensures
        hash_free(s) ==> strip_at_hash(s) == s,
        strip_at_hash(strip_at_hash(s)) == strip_at_hash(s),
{
    lemma_hash_prefix(s);
    if hash_free(s) {
        lemma_hash_prefix_unique(s, s.len() as int);
        assert(s.take(s.len() as int) =~= s);
    }
    let t = strip_at_hash(s);
    assert(hash_free(t)) by {
        assert forall|i: int| 0 <= i < t.len() implies t[i] != '#' by {
            assert(t[i] == s[i]);
        }
    }
    lemma_hash_prefix_unique(t, t.len() as int);
    assert(t.take(t.len() as int) =~= t);
}

/// Fragment stripping is idempotent: stripping a second time changes
/// nothing, and an already-fragment-free URL comes back unchanged. The
/// hypothesis records what the URL parser guarantees of its own output:
/// a fragment-free serialization re-parses to itself.
pub proof fn lemma_strip_hash_idempotent(u: Seq<char>)
    requires
        normalized_url(u) matches Some(n) ==> normalized_url(strip_at_hash(n)) == Some(
            strip_at_hash(n),
        ),
    ensures
        spec_strip_hash(spec_strip_hash(u)) == spec_strip_hash(u),
{
    match normalized_url(u) {
        Some(n) => {
            let t = strip_at_hash(n);
            lemma_strip_at_hash_idempotent(n);
            assert(spec_strip_hash(t) == strip_at_hash(t));
        },
        None => {},
    }
}

} // verus!
