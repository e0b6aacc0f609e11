//! URL-keyed record storage.
//!
//! One [`Store`] holds the records of a single resource kind, ordered by
//! their canonical URL.  Inserting is an idempotent upsert — at most one
//! record per URL ever exists, the last insert wins — and bulk retrieval
//! returns the records in ascending lexicographic URL order.
//!
//! Contracts are stated over the views of the stored records: the model of
//! a store is the sequence of record views, and [`upsert`] and [`lookup`]
//! say exactly what inserting and point lookup do to it.

use vstd::prelude::*;
use vstd::pervasive::VecAdditionalExecFns;
use crate::json::{Json, json_model};
use crate::order::{
    lex_lt, str_lt, str_eq, lemma_lex_lt_irrefl, lemma_lex_lt_asym, lemma_lex_lt_connected,
    lemma_lex_lt_trans,
};

verus! {

/// A record kind stored and fetched by the library.
///
/// Every record carries a canonical URL, its sole identity key, and decodes
/// from a fixed JSON shape.  The spec functions fully determine what
/// [`Resource::from_json`] accepts and produces.
pub trait Resource: View + Sized {
    /// The canonical URL of a record view.
    spec fn rkey(v: Self::V) -> Seq<char>;

    /// Whether a JSON document has the shape this record decodes from.
    spec fn json_ok(j: Json) -> bool;

    /// Whether `v` is the record view decoded from document `j`.
    spec fn json_matches(v: Self::V, j: Json) -> bool;

    /// The canonical URL of this record.
    fn url_str(&self) -> (r: &str)
        ensures
            r@ == Self::rkey(self@),
    ;

    /// A copy with the same view.
    fn duplicate(&self) -> (r: Self)
        ensures
            r@ == self@,
    ;

    /// Decodes a record from a JSON document, accepting exactly the
    /// documents of the right shape.
    fn from_json(doc: &serde_json::Value) -> (r: Option<Self>)
        ensures
            match r {
                Some(t) => Self::json_ok(json_model(*doc)) && Self::json_matches(
                    t@,
                    json_model(*doc),
                ),
                None => !Self::json_ok(json_model(*doc)),
            },
    ;
}

/// The views of a sequence of records.
pub open spec fn views<T: View>(s: Seq<T>) -> Seq<T::V> {
    s.map(|i: int, t: T| t@)
}

/// Strictly ascending URL order.
pub open spec fn sorted_by_key<T: Resource>(s: Seq<T::V>) -> bool {
    forall|j: int, k: int|
        0 <= j < k < s.len() ==> lex_lt(T::rkey(s[j]), T::rkey(s[k]))
}

/// The sequence after upserting `r`: placed at its ordered position,
/// replacing the record with the same key if one is present.
pub open spec fn upsert<T: Resource>(s: Seq<T::V>, r: T::V) -> Seq<T::V>
    decreases s.len(),
{
    if s.len() == 0 {
        seq![r]
    } else if lex_lt(T::rkey(r), T::rkey(s[0])) {
        seq![r] + s
    } else if T::rkey(r) == T::rkey(s[0]) {
        seq![r] + s.skip(1)
    } else {
        seq![s[0]] + upsert::<T>(s.skip(1), r)
    }
}

/// The record stored under key `k`, if any.
pub open spec fn lookup<T: Resource>(s: Seq<T::V>, k: Seq<char>) -> Option<T::V>
    decreases s.len(),
{
    if s.len() == 0 {
        None
    } else if T::rkey(s[0]) == k {
        Some(s[0])
    } else {
        lookup::<T>(s.skip(1), k)
    }
}

/// The sequence after upserting the first `i` records of `recs` in order.
pub open spec fn upsert_prefix<T: Resource>(s: Seq<T::V>, recs: Seq<T::V>, i: int) -> Seq<T::V>
    decreases i,
{
    if i <= 0 {
        s
    } else {
        upsert::<T>(upsert_prefix::<T>(s, recs, i - 1), recs[i - 1])
    }
}

/// The sequence after upserting every record of `recs` in order.
pub open spec fn upsert_all<T: Resource>(s: Seq<T::V>, recs: Seq<T::V>) -> Seq<T::V> {
    upsert_prefix::<T>(s, recs, recs.len() as int)
}

/// Where `r` lands in a sorted sequence: upserting equals replacing at
/// `idx` (same key) or inserting before `idx`, and the result is sorted.
proof fn lemma_upsert_at<T: Resource>(s: Seq<T::V>, r: T::V, idx: int)
    requires
        sorted_by_key::<T>(s),
        0 <= idx <= s.len(),
        forall|j: int| 0 <= j < idx ==> lex_lt(T::rkey(#[trigger] s[j]), T::rkey(r)),
        idx < s.len() ==> !lex_lt(T::rkey(s[idx]), T::rkey(r)),
    ensures
        idx < s.len() && T::rkey(s[idx]) == T::rkey(r) ==> upsert::<T>(s, r) == s.subrange(0, idx)
            + seq![r] + s.skip(idx + 1),
        !(idx < s.len() && T::rkey(s[idx]) == T::rkey(r)) ==> upsert::<T>(s, r) == s.subrange(
            0,
            idx,
        ) + seq![r] + s.skip(idx),
        sorted_by_key::<T>(upsert::<T>(s, r)),
    decreases s.len(),
{
    if idx == 0 {
        if s.len() == 0 {
            assert(upsert::<T>(s, r) =~= s.subrange(0, 0) + seq![r] + s.skip(0));
            assert(sorted_by_key::<T>(seq![r]));
        } else if T::rkey(s[0]) == T::rkey(r) {
            lemma_lex_lt_irrefl(T::rkey(r));
            assert(upsert::<T>(s, r) == seq![r] + s.skip(1));
            assert(upsert::<T>(s, r) =~= s.subrange(0, 0) + seq![r] + s.skip(1));
            let res = upsert::<T>(s, r);
            assert forall|j: int, k: int| 0 <= j < k < res.len() implies lex_lt(
                T::rkey(res[j]),
                T::rkey(res[k]),
            ) by {
                if j == 0 {
                    assert(res[k] == s[k]);
                    assert(lex_lt(T::rkey(s[0]), T::rkey(s[k])));
                } else {
                    assert(res[j] == s[j] && res[k] == s[k]);
                }
            }
        } else {
            if !lex_lt(T::rkey(r), T::rkey(s[0])) {
                lemma_lex_lt_connected(T::rkey(r), T::rkey(s[0]));
                assert(false);
            }
            assert(upsert::<T>(s, r) == seq![r] + s);
            assert(upsert::<T>(s, r) =~= s.subrange(0, 0) + seq![r] + s.skip(0));
            let res = upsert::<T>(s, r);
            assert forall|j: int, k: int| 0 <= j < k < res.len() implies lex_lt(
                T::rkey(res[j]),
                T::rkey(res[k]),
            ) by {
                if j == 0 {
                    assert(res[k] == s[k - 1]);
                    if k > 1 {
                        lemma_lex_lt_trans(T::rkey(r), T::rkey(s[0]), T::rkey(s[k - 1]));
                    }
                } else {
                    assert(res[j] == s[j - 1] && res[k] == s[k - 1]);
                }
            }
        }
    } else {
        assert(lex_lt(T::rkey(s[0]), T::rkey(r)));
        lemma_lex_lt_asym(T::rkey(s[0]), T::rkey(r));
        if T::rkey(r) == T::rkey(s[0]) {
            lemma_lex_lt_irrefl(T::rkey(r));
            assert(false);
        }
        let tail = s.skip(1);
        assert(forall|j: int| 0 <= j < tail.len() ==> tail[j] == s[j + 1]);
        assert(sorted_by_key::<T>(tail));
        lemma_upsert_at::<T>(tail, r, idx - 1);
        let res = upsert::<T>(s, r);
        assert(res == seq![s[0]] + upsert::<T>(tail, r));
        if idx < s.len() && T::rkey(s[idx]) == T::rkey(r) {
            assert(upsert::<T>(tail, r) == tail.subrange(0, idx - 1) + seq![r] + tail.skip(idx));
            assert(res =~= s.subrange(0, idx) + seq![r] + s.skip(idx + 1));
        } else {
            assert(upsert::<T>(tail, r) == tail.subrange(0, idx - 1) + seq![r] + tail.skip(
                idx - 1,
            ));
            assert(res =~= s.subrange(0, idx) + seq![r] + s.skip(idx));
        }
        let utail = upsert::<T>(tail, r);
        assert forall|j: int, k: int| 0 <= j < k < res.len() implies lex_lt(
            T::rkey(res[j]),
            T::rkey(res[k]),
        ) by {
            if j == 0 {
                assert(res[k] == utail[k - 1]);
                if idx < s.len() && T::rkey(s[idx]) == T::rkey(r) {
                    if k - 1 < idx - 1 {
                        assert(utail[k - 1] == tail[k - 1]);
                        assert(lex_lt(T::rkey(s[0]), T::rkey(s[k])));
                    } else if k - 1 == idx - 1 {
                        assert(utail[k - 1] == r);
                        assert(lex_lt(T::rkey(s[0]), T::rkey(r)));
                    } else {
                        assert(utail[k - 1] == tail[k - 1]);
                        assert(lex_lt(T::rkey(s[0]), T::rkey(s[k])));
                    }
                } else {
                    if k - 1 < idx - 1 {
                        assert(utail[k - 1] == tail[k - 1]);
                        assert(lex_lt(T::rkey(s[0]), T::rkey(s[k])));
                    } else if k - 1 == idx - 1 {
                        assert(utail[k - 1] == r);
                        assert(lex_lt(T::rkey(s[0]), T::rkey(r)));
                    } else {
                        assert(utail[k - 1] == tail[k - 2]);
                        assert(lex_lt(T::rkey(s[0]), T::rkey(s[k - 1])));
                    }
                }
            } else {
                assert(res[j] == utail[j - 1] && res[k] == utail[k - 1]);
                assert(lex_lt(T::rkey(utail[j - 1]), T::rkey(utail[k - 1])));
            }
        }
    }
}

/// A sorted store holds at most one record per URL.
pub proof fn lemma_sorted_unique_keys<T: Resource>(s: Seq<T::V>, j: int, k: int)
    requires
        sorted_by_key::<T>(s),
        0 <= j < s.len(),
        0 <= k < s.len(),
        T::rkey(s[j]) == T::rkey(s[k]),
    ensures
        j == k,
{
    if j != k {
        lemma_lex_lt_irrefl(T::rkey(s[j]));
        assert(false);
    }
}

/// Upsert is last-writer-wins: a second upsert with the same key erases the
/// first.
pub proof fn lemma_upsert_overwrite<T: Resource>(s: Seq<T::V>, a: T::V, b: T::V)
    requires
        T::rkey(a) == T::rkey(b),
    ensures
        upsert::<T>(upsert::<T>(s, a), b) == upsert::<T>(s, b),
    decreases s.len(),
{
    lemma_lex_lt_irrefl(T::rkey(a));
    if s.len() == 0 {
        assert(upsert::<T>(s, a) == seq![a]);
        assert(upsert::<T>(upsert::<T>(s, a), b) == seq![b] + seq![a].skip(1));
        assert(seq![b] + seq![a].skip(1) =~= seq![b]);
        assert(upsert::<T>(s, b) =~= seq![b]);
    } else if lex_lt(T::rkey(a), T::rkey(s[0])) {
        let inner = seq![a] + s;
        assert(upsert::<T>(s, a) == inner);
        assert(inner[0] == a);
        assert(upsert::<T>(inner, b) == seq![b] + inner.skip(1));
        assert(seq![b] + inner.skip(1) =~= seq![b] + s);
        assert(upsert::<T>(s, b) == seq![b] + s);
    } else if T::rkey(a) == T::rkey(s[0]) {
        let inner = seq![a] + s.skip(1);
        assert(upsert::<T>(s, a) == inner);
        assert(inner[0] == a);
        assert(upsert::<T>(inner, b) == seq![b] + inner.skip(1));
        assert(seq![b] + inner.skip(1) =~= seq![b] + s.skip(1));
        assert(upsert::<T>(s, b) == seq![b] + s.skip(1));
    } else {
        let inner = seq![s[0]] + upsert::<T>(s.skip(1), a);
        assert(upsert::<T>(s, a) == inner);
        assert(inner[0] == s[0]);
        lemma_upsert_overwrite::<T>(s.skip(1), a, b);
        assert(upsert::<T>(inner, b) == seq![inner[0]] + upsert::<T>(inner.skip(1), b));
        assert(inner.skip(1) =~= upsert::<T>(s.skip(1), a));
        assert(upsert::<T>(s, b) == seq![s[0]] + upsert::<T>(s.skip(1), b));
    }
}

/// What point lookup sees after an upsert: the new record under its own
/// key, everything else untouched.
pub proof fn lemma_lookup_upsert<T: Resource>(s: Seq<T::V>, r: T::V, k: Seq<char>)
    ensures
        lookup::<T>(upsert::<T>(s, r), k) == (if k == T::rkey(r) {
            Some(r)
        } else {
            lookup::<T>(s, k)
        }),
    decreases s.len(),
{
    let res = upsert::<T>(s, r);
    if s.len() == 0 {
        assert(res == seq![r]);
        assert(res[0] == r);
        assert(res.skip(1) =~= Seq::<T::V>::empty());
    } else if lex_lt(T::rkey(r), T::rkey(s[0])) {
        assert(res == seq![r] + s);
        assert(res[0] == r);
        assert(res.skip(1) =~= s);
    } else if T::rkey(r) == T::rkey(s[0]) {
        assert(res == seq![r] + s.skip(1));
        assert(res[0] == r);
        assert(res.skip(1) =~= s.skip(1));
    } else {
        if !lex_lt(T::rkey(s[0]), T::rkey(r)) {
            lemma_lex_lt_connected(T::rkey(r), T::rkey(s[0]));
            assert(false);
        }
        assert(res == seq![s[0]] + upsert::<T>(s.skip(1), r));
        assert(res[0] == s[0]);
        assert(res.skip(1) =~= upsert::<T>(s.skip(1), r));
        lemma_lookup_upsert::<T>(s.skip(1), r, k);
    }
}

/// Per-kind storage: a vector of records kept in strictly ascending URL
/// order.
pub struct Store<T> {
    pub items: Vec<T>,
}

impl<T: Resource> View for Store<T> {
    type V = Seq<T::V>;

    open spec fn view(&self) -> Seq<T::V> {
        views(self.items@)
    }
}

impl<T: Resource> Store<T> {
    /// Well-formed: records strictly sorted (hence unique) by URL.
    pub open spec fn wf(self) -> bool {
        sorted_by_key::<T>(self@)
    }

    /// An empty store.
    pub fn new() -> (r: Self)
        ensures
            r@ == Seq::<T::V>::empty(),
            r.wf(),
    {
        let r = Store { items: Vec::new() };
        proof {
            assert(r@ =~= Seq::<T::V>::empty());
        }
        r
    }

    /// Upserts `rec` at its URL: the store afterward holds [`upsert`] of
    /// its old contents.
    pub fn insert(&mut self, rec: &T)
        requires
            old(self).wf(),
        ensures
            final(self).wf(),
            final(self)@ == upsert::<T>(old(self)@, rec@),
    {
        let n = self.items.len();
        let mut idx: usize = 0;
        loop
            invariant
                *self == *old(self),
                n == self.items.len(),
                idx <= n,
                forall|j: int| 0 <= j < idx ==> lex_lt(T::rkey(#[trigger] self@[j]), T::rkey(rec@)),
            ensures
                *self == *old(self),
                n == self.items.len(),
                idx <= n,
                forall|j: int| 0 <= j < idx ==> lex_lt(T::rkey(#[trigger] self@[j]), T::rkey(rec@)),
                idx < n ==> !lex_lt(T::rkey(self@[idx as int]), T::rkey(rec@)),
            decreases n - idx,
        {
            if idx >= n {
                break ;
            }
            let below = str_lt(self.items[idx].url_str(), rec.url_str());
            assert(self.items@[idx as int]@ == self@[idx as int]);
            if !below {
                break ;
            }
            idx = idx + 1;
        }
        proof {
            lemma_upsert_at::<T>(self@, rec@, idx as int);
        }
        if idx < n && str_eq(self.items[idx].url_str(), rec.url_str()) {
            self.items.set(idx, rec.duplicate());
            proof {
                assert(final(self)@ =~= old(self)@.subrange(0, idx as int) + seq![rec@] + old(
                    self,
                )@.skip(idx as int + 1));
            }
        } else {
            self.items.insert(idx, rec.duplicate());
            proof {
                assert(final(self)@ =~= old(self)@.subrange(0, idx as int) + seq![rec@] + old(
                    self,
                )@.skip(idx as int));
            }
        }
    }

    /// Point lookup by URL.
    pub fn get(&self, url: &str) -> (r: Option<T>)
        ensures
            match r {
                Some(t) => lookup::<T>(self@, url@) == Some(t@),
                None => lookup::<T>(self@, url@) is None,
            },
    {
        let n = self.items.len();
        let mut i: usize = 0;
        proof {
            assert(self@.skip(0) =~= self@);
        }
        while i < n
            invariant
                n == self.items.len(),
                i <= n,
                lookup::<T>(self@, url@) == lookup::<T>(self@.skip(i as int), url@),
            decreases n - i,
        {
            assert(self@.skip(i as int)[0] == self@[i as int]);
            if str_eq(self.items[i].url_str(), url) {
                assert(lookup::<T>(self@.skip(i as int), url@) == Some(self@[i as int]));
                return Some(self.items[i].duplicate());
            }
            proof {
                assert(self@.skip(i as int).skip(1) =~= self@.skip(i as int + 1));
            }
            i = i + 1;
        }
        proof {
            assert(self@.skip(n as int) =~= Seq::<T::V>::empty());
        }
        None
    }

    /// All records in ascending URL order, or `None` when the store is
    /// empty — an empty store is reported as absent, never as an empty
    /// list.
    pub fn get_all(&self) -> (r: Option<Vec<T>>)
        requires
            self.wf(),
        ensures
            match r {
                Some(list) => self@.len() > 0 && views(list@) == self@ && sorted_by_key::<T>(
                    views(list@),
                ),
                None => self@.len() == 0,
            },
    {
        let n = self.items.len();
        if n == 0 {
            return None;
        }
        let mut out: Vec<T> = Vec::new();
        let mut i: usize = 0;
        while i < n
            invariant
                n == self.items.len(),
                i <= n,
                out@.len() == i,
                forall|j: int| 0 <= j < i ==> #[trigger] out@[j]@ == self@[j],
            decreases n - i,
        {
            out.push(self.items[i].duplicate());
            i = i + 1;
        }
        proof {
            assert(views(out@) =~= self@);
        }
        Some(out)
    }

    /// The number of stored records.
    pub fn len(&self) -> (n: usize)
        ensures
            n == self@.len(),
    {
        self.items.len()
    }
}

} // verus!
