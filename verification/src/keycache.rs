//! A key set: a mapping from key id to PEM-encoded public key material,
//! replaced wholesale on refresh and never merged.

use vstd::prelude::*;

use crate::outside::{key_pairs_of, pairs_deep, parse_key_pairs};
use crate::strings::str_eq;

verus! {

/// The mapping denoted by a sequence of key/value pairs; on duplicate keys
/// the later pair wins.
pub open spec fn pairs_to_map(pairs: Seq<(Seq<char>, Seq<char>)>) -> Map<Seq<char>, Seq<char>>
    decreases pairs.len(),
{
    if pairs.len() == 0 {
        Map::empty()
    } else {
        pairs_to_map(pairs.drop_last()).insert(pairs.last().0, pairs.last().1)
    }
}

pub proof fn lemma_pairs_to_map_found(pairs: Seq<(Seq<char>, Seq<char>)>, i: int)
    requires
        0 <= i < pairs.len(),
        forall|p: int, q: int| 0 <= p < q < pairs.len() ==> pairs[p].0 != pairs[q].0,
    ensures
        pairs_to_map(pairs).contains_key(pairs[i].0),
        pairs_to_map(pairs)[pairs[i].0] == pairs[i].1,
    decreases pairs.len(),
{
    if i + 1 < pairs.len() {
        assert(pairs.drop_last()[i] == pairs[i]);
        lemma_pairs_to_map_found(pairs.drop_last(), i);
        assert(pairs[i].0 != pairs.last().0);
    }
}

pub proof fn lemma_pairs_to_map_not_found(pairs: Seq<(Seq<char>, Seq<char>)>, k: Seq<char>)
    requires
        forall|p: int| 0 <= p < pairs.len() ==> (#[trigger] pairs[p]).0 != k,
    ensures
        !pairs_to_map(pairs).contains_key(k),
    decreases pairs.len(),
{
    if pairs.len() > 0 {
        assert(forall|p: int|
            0 <= p < pairs.drop_last().len() ==> (#[trigger] pairs.drop_last()[p]).0 != k);
        lemma_pairs_to_map_not_found(pairs.drop_last(), k);
    }
}

/// The key set after one refresh attempt on `pre` whose fetched body was
/// `body`: the complete fetched mapping when the body parses, the old set
/// untouched otherwise.
pub open spec fn spec_refresh_result(
    pre: Map<Seq<char>, Seq<char>>,
    body: Seq<char>,
) -> Map<Seq<char>, Seq<char>> {
    match key_pairs_of(body) {
        Some(pairs) => pairs_to_map(pairs),
        None => pre,
    }
}

/// A refresh is all-or-nothing: whatever the fetched body, the resulting key
/// set is either exactly the old mapping or exactly the complete fetched
/// mapping, never a mixture.
pub proof fn lemma_refresh_atomic(pre: Map<Seq<char>, Seq<char>>, body: Seq<char>)
    ensures
        spec_refresh_result(pre, body) == pre || (match key_pairs_of(body) {
            Some(pairs) => spec_refresh_result(pre, body) == pairs_to_map(pairs),
            None => false,
        }),
{
}

/// One token kind's key set.
pub struct KeyCache {
    pub entries: Vec<(String, String)>,
}

impl KeyCache {
    /// The mapping this cache currently holds.
    pub open spec fn view(&self) -> Map<Seq<char>, Seq<char>> {
        pairs_to_map(pairs_deep(self.entries@))
    }

    /// Key ids are stored at most once.
    pub open spec fn wf(&self) -> bool {
        forall|p: int, q: int|
            0 <= p < q < self.entries@.len() ==> self.entries@[p].0@ != self.entries@[q].0@
    }

    /// A cache starts empty: no key has been fetched yet.
    pub fn new() -> (r: KeyCache)
        ensures
            r@ == Map::<Seq<char>, Seq<char>>::empty(),
            r.wf(),
    {
        KeyCache { entries: Vec::new() }
    }

    /// Read the current set: the PEM for `kid` when it is present, with no
    /// fetch triggered either way.
    pub fn lookup(&self, kid: &str) -> (r: Option<String>)
        requires
            self.wf(),
        ensures
            match r {
                Some(pem) => self@.contains_key(kid@) && self@[kid@] == pem@,
                None => !self@.contains_key(kid@),
            },
    {
        let ghost pairs = pairs_deep(self.entries@);
        let n = self.entries.len();
        let mut i: usize = 0;
        while i < n
            invariant
                i <= n,
                n == self.entries@.len(),
                pairs == pairs_deep(self.entries@),
                self.wf(),
                forall|k: int| 0 <= k < i ==> self.entries@[k].0@ != kid@,
            decreases n - i,
        {
            if str_eq(self.entries[i].0.as_str(), kid) {
                proof {
                    assert(forall|p: int|
                        0 <= p < pairs.len() ==> #[trigger] pairs[p] == (self.entries@[p].0@,
                        self.entries@[p].1@));
                    lemma_pairs_to_map_found(pairs, i as int);
                }
                return Some(self.entries[i].1.clone());
            }
            i = i + 1;
        }
        proof {
            assert(forall|p: int|
                0 <= p < pairs.len() ==> #[trigger] pairs[p] == (self.entries@[p].0@,
                self.entries@[p].1@));
            lemma_pairs_to_map_not_found(pairs, kid@);
        }
        None
    }

    /// Apply the body of one key-endpoint response: on a parsable body the
    /// whole set is replaced atomically; otherwise the cached set stays
    /// untouched (stale-but-available over empty).
    pub fn refresh_from_body(&mut self, body: &str) -> (ok: bool)
        requires
            old(self).wf(),
        ensures
            ok == (key_pairs_of(body@) is Some),
            final(self)@ == spec_refresh_result(old(self)@, body@),
            final(self).wf(),
    {
        match parse_key_pairs(body) {
            Some(v) => {
                self.entries = v;
                true
            },
            None => false,
        }
    }
}

} // verus!
