//! Storage keys: the prefix under which sa-token keys are stored.

use vstd::prelude::*;

use crate::text::{ends_with_char, starts_with, str_ends_with_char, str_strip_prefix};

verus! {

/// The normal form of a configured prefix: no prefix for an empty one, and a
/// prefix that ends with `:` otherwise.
pub open spec fn spec_normalize_prefix(prefix: Option<Seq<char>>) -> Option<Seq<char>> {
    match prefix {
        Some(p) => if p.len() == 0 {
            None
        } else if ends_with_char(p, ':') {
            Some(p)
        } else {
            Some(p.push(':'))
        },
        None => None,
    }
}

/// The view of an optional owned string.
pub open spec fn opt_string_view(s: Option<String>) -> Option<Seq<char>> {
    match s {
        Some(s) => Some(s@),
        None => None,
    }
}

/// Normalizes a configured storage prefix: an empty prefix becomes `None`,
/// and a prefix that does not end with `:` gets one appended.
pub fn normalize_storage_prefix(prefix: Option<String>) -> (r: Option<String>)
    ensures
        opt_string_view(r) == spec_normalize_prefix(opt_string_view(prefix)),
        prefix is None ==> r is None,
        prefix is Some && prefix->0@.len() == 0 ==> r is None,
        prefix is Some && prefix->0@.len() > 0 && prefix->0@.last() == ':' ==> r is Some
            && r->0@ == prefix->0@,
        prefix is Some && prefix->0@.len() > 0 && prefix->0@.last() != ':' ==> r is Some
            && r->0@.len() == prefix->0@.len() + 1 && r->0@.take(prefix->0@.len() as int)
            == prefix->0@ && r->0@.last() == ':',
{
    match prefix {
        Some(p) => {
            if p.as_str().is_empty() {
                None
            } else if str_ends_with_char(p.as_str(), ':') {
                Some(p)
            } else {
                let mut q = p;
                q.append(":");
                proof {
                    reveal_strlit(":");
                }
                Some(q)
            }
        },
        None => None,
    }
}


/// The root under which sa-token-core stores all of its keys.
pub open spec fn logical_root() -> Seq<char> {
    seq!['s', 'a', ':']
}

/// `true` when keys are written under `prefix` at all: the prefix is present
/// and not empty.
pub open spec fn has_prefix(prefix: Option<Seq<char>>) -> bool {
    prefix matches Some(p) && p.len() > 0
}

/// The storage key under which the logical `key` is stored. With
/// `rewrite_prefix`, the logical root `sa:` is replaced by the prefix;
/// otherwise the prefix is put in front of the key.
pub open spec fn spec_apply_prefix(prefix: Option<Seq<char>>, rewrite_prefix: bool, key: Seq<char>) -> Seq<char> {
    match prefix {
        Some(p) => if p.len() == 0 {
            key
        } else if rewrite_prefix && starts_with(key, logical_root()) {
            p + key.skip(3)
        } else {
            p + key
        },
        None => key,
    }
}

/// The logical key of the storage key `key`: the inverse of
/// `spec_apply_prefix` on keys that carry the prefix. With `rewrite_prefix`,
/// the logical root `sa:` is put back in front when the rest lacks it.
pub open spec fn spec_strip_prefix(prefix: Option<Seq<char>>, rewrite_prefix: bool, key: Seq<char>) -> Seq<char> {
    match prefix {
        Some(p) => if p.len() == 0 || !starts_with(key, p) {
            key
        } else if rewrite_prefix && !starts_with(key.skip(p.len() as int), logical_root()) {
            logical_root() + key.skip(p.len() as int)
        } else {
            key.skip(p.len() as int)
        },
        None => key,
    }
}

/// The view of an optional string slice.
pub open spec fn opt_str_view(s: Option<&str>) -> Option<Seq<char>> {
    match s {
        Some(s) => Some(s@),
        None => None,
    }
}

/// Concatenation of two string slices into a new string.
fn concat_strs(a: &str, b: &str) -> (r: String)
    ensures
        r@ == a@ + b@,
{
    let mut r = a.to_owned();
    r.append(b);
    r
}

/// The storage key of a logical key: see `spec_apply_prefix`.
pub fn apply_storage_prefix(prefix: Option<&str>, rewrite_prefix: bool, key: &str) -> (r: String)
    ensures
        r@ == spec_apply_prefix(opt_str_view(prefix), rewrite_prefix, key@),
{
    match prefix {
        Some(p) => {
            if p.is_empty() {
                key.to_owned()
            } else if rewrite_prefix {
                proof {
                    reveal_strlit("sa:");
                    assert("sa:"@ =~= logical_root());
                }
                match str_strip_prefix(key, "sa:") {
                    Some(stripped) => concat_strs(p, stripped),
                    None => concat_strs(p, key),
                }
            } else {
                concat_strs(p, key)
            }
        },
        None => key.to_owned(),
    }
}

/// The storage pattern of a logical key pattern: patterns are prefixed
/// exactly as keys are.
pub fn apply_storage_prefix_to_pattern(prefix: Option<&str>, rewrite_prefix: bool, pattern: &str) -> (r: String)
    ensures
        r@ == spec_apply_prefix(opt_str_view(prefix), rewrite_prefix, pattern@),
{
    apply_storage_prefix(prefix, rewrite_prefix, pattern)
}

/// The logical key of a storage key: see `spec_strip_prefix`.
pub fn strip_storage_prefix(prefix: Option<&str>, rewrite_prefix: bool, key: &str) -> (r: String)
    ensures
        r@ == spec_strip_prefix(opt_str_view(prefix), rewrite_prefix, key@),
{
    match prefix {
        Some(p) => {
            if p.is_empty() {
                key.to_owned()
            } else {
                match str_strip_prefix(key, p) {
                    Some(stripped) => {
                        if rewrite_prefix {
                            proof {
                                reveal_strlit("sa:");
                                assert("sa:"@ =~= logical_root());
                            }
                            if str_strip_prefix(stripped, "sa:").is_some() {
                                stripped.to_owned()
                            } else {
                                concat_strs("sa:", stripped)
                            }
                        } else {
                            stripped.to_owned()
                        }
                    },
                    None => key.to_owned(),
                }
            }
        },
        None => key.to_owned(),
    }
}


/// `true` for a prefix in normal form: absent, or non-empty and ending with `:`.
pub open spec fn is_normalized_prefix(prefix: Option<Seq<char>>) -> bool {
    prefix matches Some(p) ==> p.len() > 0 && ends_with_char(p, ':')
}

/// Normalizing a prefix gives a prefix in normal form, and normalizing it
/// again changes nothing.
pub proof fn lemma_normalize_prefix_idempotent(prefix: Option<Seq<char>>)
    ensures
        is_normalized_prefix(spec_normalize_prefix(prefix)),
        spec_normalize_prefix(spec_normalize_prefix(prefix)) == spec_normalize_prefix(prefix),
{
}

/// `true` for a logical key that the `sa:` rewrite maps back and forth
/// unchanged: it starts with `sa:`, and what follows does not start with `sa:`
/// again.
pub open spec fn is_rewritable_key(key: Seq<char>) -> bool {
    starts_with(key, logical_root()) && !starts_with(key.skip(3), logical_root())
}

/// What normalization does to each configured prefix: no prefix and an empty
/// prefix give none; a prefix ending with `:` is kept as it is; any other
/// prefix is kept whole, whatever colons it holds, with exactly one `:`
/// appended.
pub proof fn lemma_normalize_prefix_shape(prefix: Option<Seq<char>>)
    ensures
        prefix is None ==> spec_normalize_prefix(prefix) is None,
        prefix is Some && prefix->0.len() == 0 ==> spec_normalize_prefix(prefix) is None,
        prefix is Some && prefix->0.len() > 0 && prefix->0.last() == ':' ==> spec_normalize_prefix(
            prefix,
        ) == prefix,
        prefix is Some && prefix->0.len() > 0 && prefix->0.last() != ':' ==> {
            let q = spec_normalize_prefix(prefix);
            &&& q is Some
            &&& q->0.len() == prefix->0.len() + 1
            &&& q->0.take(prefix->0.len() as int) == prefix->0
            &&& q->0.last() == ':'
        },
{
    if let Some(p) = prefix {
        if p.len() > 0 && p.last() != ':' {
            assert(p.push(':').take(p.len() as int) =~= p);
        }
    }
}

/// `true` when `key` comes back unchanged from storage under this prefix
/// setting: always without the rewrite, and for rewritable keys with it.
pub open spec fn is_round_trip_key(prefix: Option<Seq<char>>, rewrite_prefix: bool, key: Seq<char>) -> bool {
    rewrite_prefix && has_prefix(prefix) ==> is_rewritable_key(key)
}

/// A key written to storage is listed back under its own logical name:
/// stripping the prefix from the storage key of `key` gives `key` again.
pub proof fn lemma_strip_undoes_apply(prefix: Option<Seq<char>>, rewrite_prefix: bool, key: Seq<char>)
    requires
        is_round_trip_key(prefix, rewrite_prefix, key),
    ensures
        spec_strip_prefix(prefix, rewrite_prefix, spec_apply_prefix(prefix, rewrite_prefix, key)) == key,
{
    if let Some(p) = prefix {
        if p.len() > 0 {
            let stored = spec_apply_prefix(prefix, rewrite_prefix, key);
            if rewrite_prefix {
                let rest = key.skip(3);
                assert(stored =~= p + rest);
                assert(stored.take(p.len() as int) =~= p);
                assert(stored.skip(p.len() as int) =~= rest);
                assert(key =~= logical_root() + rest);
            } else {
                assert(stored.take(p.len() as int) =~= p);
                assert(stored.skip(p.len() as int) =~= key);
            }
        }
    }
}

/// Two distinct logical keys never share a storage key, as long as both come
/// back unchanged from storage.
pub proof fn lemma_apply_prefix_injective(prefix: Option<Seq<char>>, rewrite_prefix: bool, k1: Seq<char>, k2: Seq<char>)
    requires
        is_round_trip_key(prefix, rewrite_prefix, k1),
        is_round_trip_key(prefix, rewrite_prefix, k2),
        spec_apply_prefix(prefix, rewrite_prefix, k1) == spec_apply_prefix(prefix, rewrite_prefix, k2),
    ensures
        k1 == k2,
{
    lemma_strip_undoes_apply(prefix, rewrite_prefix, k1);
    lemma_strip_undoes_apply(prefix, rewrite_prefix, k2);
}


/// The expiry that a Redis `TTL` reply stands for, in seconds: `-2` (no such
/// key) and `-1` (no expiry) give none, a positive count gives itself, and any
/// other reply an expiry of zero.
pub open spec fn spec_ttl_from_redis(ttl_secs: i64) -> Option<u64> {
    if ttl_secs == -2 || ttl_secs == -1 {
        None
    } else if ttl_secs > 0 {
        Some(ttl_secs as u64)
    } else {
        Some(0)
    }
}

/// The expiry, in seconds, that a Redis `TTL` reply stands for: see
/// `spec_ttl_from_redis`.
pub fn ttl_from_redis(ttl_secs: i64) -> (r: Option<u64>)
    ensures
        r == spec_ttl_from_redis(ttl_secs),
{
    if ttl_secs == -2 || ttl_secs == -1 {
        None
    } else if ttl_secs > 0 {
        Some(ttl_secs as u64)
    } else {
        Some(0)
    }
}

/// A Redis-backed sa-token storage: the connection and the prefix under which
/// every key is stored.
pub struct SummerRedisStorage<C> {
    client: C,
    prefix: Option<String>,
    rewrite_prefix: bool,
}

impl<C> SummerRedisStorage<C> {
    /// The prefix of this storage, normalized when it was made.
    pub closed spec fn spec_prefix(&self) -> Option<Seq<char>> {
        opt_string_view(self.prefix)
    }

    /// Whether this storage rewrites the logical root `sa:` into the prefix.
    pub closed spec fn spec_rewrite_prefix(&self) -> bool {
        self.rewrite_prefix
    }

    /// The connection of this storage.
    pub closed spec fn spec_client(&self) -> C {
        self.client
    }

    /// Makes a storage over `client`, with `prefix` in normal form.
    pub fn new(client: C, prefix: Option<String>, rewrite_prefix: bool) -> (s: Self)
        ensures
            s.spec_prefix() == spec_normalize_prefix(opt_string_view(prefix)),
            is_normalized_prefix(s.spec_prefix()),
            s.spec_rewrite_prefix() == rewrite_prefix,
            s.spec_client() == client,
    {
        let prefix = normalize_storage_prefix(prefix);
        proof {
            lemma_normalize_prefix_idempotent(opt_string_view(prefix));
        }
        Self { client, prefix, rewrite_prefix }
    }

    /// The connection of this storage.
    pub fn client(&self) -> (c: &C)
        ensures
            *c == self.spec_client(),
    {
        &self.client
    }

    /// The prefix of this storage.
    pub fn prefix(&self) -> (p: Option<&str>)
        ensures
            opt_str_view(p) == self.spec_prefix(),
    {
        match &self.prefix {
            Some(p) => Some(p.as_str()),
            None => None,
        }
    }

    /// Whether this storage rewrites the logical root `sa:` into the prefix.
    pub fn rewrite_prefix(&self) -> (b: bool)
        ensures
            b == self.spec_rewrite_prefix(),
    {
        self.rewrite_prefix
    }

    /// The storage key of the logical `key`.
    pub fn storage_key(&self, key: &str) -> (r: String)
        ensures
            r@ == spec_apply_prefix(self.spec_prefix(), self.spec_rewrite_prefix(), key@),
    {
        apply_storage_prefix(self.prefix(), self.rewrite_prefix, key)
    }

    /// The storage keys of the logical `keys`, in order.
    pub fn storage_keys(&self, keys: &[&str]) -> (r: Vec<String>)
        ensures
            r.len() == keys.len(),
            forall|i: int|
                0 <= i < keys.len() ==> #[trigger] r@[i]@ == spec_apply_prefix(
                    self.spec_prefix(),
                    self.spec_rewrite_prefix(),
                    keys@[i]@,
                ),
    {
        let mut r: Vec<String> = Vec::new();
        let n = keys.len();
        for i in 0..n
            invariant
                n == keys.len(),
                r.len() == i,
                forall|j: int|
                    0 <= j < i ==> #[trigger] r@[j]@ == spec_apply_prefix(
                        self.spec_prefix(),
                        self.spec_rewrite_prefix(),
                        keys@[j]@,
                    ),
        {
            r.push(self.storage_key(keys[i]));
        }
        r
    }

    /// The logical keys of the storage `keys`, in order.
    pub fn logical_keys(&self, keys: &[String]) -> (r: Vec<String>)
        ensures
            r.len() == keys.len(),
            forall|i: int|
                0 <= i < keys.len() ==> #[trigger] r@[i]@ == spec_strip_prefix(
                    self.spec_prefix(),
                    self.spec_rewrite_prefix(),
                    keys@[i]@,
                ),
    {
        let mut r: Vec<String> = Vec::new();
        let n = keys.len();
        for i in 0..n
            invariant
                n == keys.len(),
                r.len() == i,
                forall|j: int|
                    0 <= j < i ==> #[trigger] r@[j]@ == spec_strip_prefix(
                        self.spec_prefix(),
                        self.spec_rewrite_prefix(),
                        keys@[j]@,
                    ),
        {
            r.push(strip_storage_prefix(self.prefix(), self.rewrite_prefix, keys[i].as_str()));
        }
        r
    }

    /// The storage pattern of the logical `pattern`.
    pub fn storage_pattern(&self, pattern: &str) -> (r: String)
        ensures
            r@ == spec_apply_prefix(self.spec_prefix(), self.spec_rewrite_prefix(), pattern@),
    {
        apply_storage_prefix_to_pattern(self.prefix(), self.rewrite_prefix, pattern)
    }

    /// The storage pattern that matches every key of sa-token: that of the
    /// logical pattern `sa:*`.
    pub fn clear_pattern(&self) -> (r: String)
        ensures
            r@ == spec_apply_prefix(self.spec_prefix(), self.spec_rewrite_prefix(), seq!['s', 'a', ':', '*']),
    {
        proof {
            reveal_strlit("sa:*");
            assert("sa:*"@ =~= seq!['s', 'a', ':', '*']);
        }
        self.storage_pattern("sa:*")
    }
}

} // verus!
