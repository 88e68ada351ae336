//! The configuration table of a topic's page: every setting sorted by key,
//! and the few settings shown before the table is expanded.
use vstd::prelude::*;

use crate::keyed::{has_key, keys_distinct, pairs_to_map};
use crate::properties::{entry_views, KafkaProperties};
use crate::text::{chars_of, string_eq_str};

verus! {

/// `a` comes no later than `b` in lexicographic order of characters (the
/// order of `str`).
pub open spec fn lex_le(a: Seq<char>, b: Seq<char>) -> bool
    decreases a.len(),
{
    if a.len() == 0 {
        true
    } else if b.len() == 0 {
        false
    } else if a[0] < b[0] {
        true
    } else if a[0] > b[0] {
        false
    } else {
        lex_le(a.drop_first(), b.drop_first())
    }
}

/// Any two strings are ordered one way or the other.
pub proof fn lemma_lex_total(a: Seq<char>, b: Seq<char>)
    ensures
        lex_le(a, b) || lex_le(b, a),
    decreases a.len(),
{
    if a.len() > 0 && b.len() > 0 && a[0] == b[0] {
        lemma_lex_total(a.drop_first(), b.drop_first());
    }
}

/// Strings ordered both ways are equal.
pub proof fn lemma_lex_antisymmetric(a: Seq<char>, b: Seq<char>)
    requires
        lex_le(a, b),
        lex_le(b, a),
    ensures
        a == b,
    decreases a.len(),
{
    if a.len() > 0 {
        lemma_lex_antisymmetric(a.drop_first(), b.drop_first());
        assert(a[0] == b[0]);
        assert(a =~= seq![a[0]] + a.drop_first());
        assert(b =~= seq![b[0]] + b.drop_first());
    } else {
        assert(b.len() == 0);
        assert(a =~= b);
    }
}

/// The order is transitive.
pub proof fn lemma_lex_transitive(a: Seq<char>, b: Seq<char>, c: Seq<char>)
    requires
        lex_le(a, b),
        lex_le(b, c),
    ensures
        lex_le(a, c),
    decreases a.len(),
{
    if a.len() > 0 && b.len() > 0 && c.len() > 0 && a[0] == b[0] && b[0] == c[0] {
        lemma_lex_transitive(a.drop_first(), b.drop_first(), c.drop_first());
    }
}

/// Does `a` come no later than `b`?
pub fn str_lex_le(a: &str, b: &str) -> (r: bool)
    ensures
        r == lex_le(a@, b@),
{
    let x = chars_of(a);
    let y = chars_of(b);
    let mut i: usize = 0;
    assert(a@.subrange(0, a@.len() as int) =~= a@);
    assert(b@.subrange(0, b@.len() as int) =~= b@);
    while i < x.len()
        invariant
            x@ == a@,
            y@ == b@,
            i <= x@.len(),
            i <= y@.len(),
            lex_le(a@, b@) == lex_le(a@.subrange(i as int, a@.len() as int), b@.subrange(
                i as int,
                b@.len() as int,
            )),
        decreases x@.len() - i,
    {
        let ghost sa = a@.subrange(i as int, a@.len() as int);
        let ghost sb = b@.subrange(i as int, b@.len() as int);
        if i >= y.len() {
            assert(sa.len() > 0 && sb.len() == 0);
            return false;
        }
        assert(sa[0] == x@[i as int] && sb[0] == y@[i as int]);
        if x[i] < y[i] {
            return true;
        }
        if x[i] > y[i] {
            return false;
        }
        assert(sa.drop_first() =~= a@.subrange(i + 1, a@.len() as int));
        assert(sb.drop_first() =~= b@.subrange(i + 1, b@.len() as int));
        i = i + 1;
    }
    assert(a@.subrange(i as int, a@.len() as int).len() == 0);
    true
}

/// The keys of pairs are in order.
pub open spec fn sorted_by_key(s: Seq<(Seq<char>, Seq<char>)>) -> bool {
    forall|i: int, j: int| 0 <= i < j < s.len() ==> lex_le(#[trigger] s[i].0, #[trigger] s[j].0)
}

/// The keys shown before the table is expanded.
pub open spec fn highlighted_key(k: Seq<char>) -> bool {
    ||| k == "cleanup.policy"@
    ||| k == "max.message.bytes"@
    ||| k == "min.insync.replicas"@
    ||| k == "retention.bytes"@
    ||| k == "retention.ms"@
}

/// The pairs of `s` with a highlighted key, in order.
pub open spec fn highlighted(s: Seq<(Seq<char>, Seq<char>)>) -> Seq<(Seq<char>, Seq<char>)>
    decreases s.len(),
{
    if s.len() == 0 {
        s
    } else {
        let rest = highlighted(s.drop_last());
        if highlighted_key(s.last().0) {
            rest.push(s.last())
        } else {
            rest
        }
    }
}

/// Is `k` one of the highlighted keys?
pub fn is_highlighted_key(k: &String) -> (r: bool)
    ensures
        r == highlighted_key(k@),
{
    string_eq_str(k, "cleanup.policy") || string_eq_str(k, "max.message.bytes") || string_eq_str(
        k,
        "min.insync.replicas",
    ) || string_eq_str(k, "retention.bytes") || string_eq_str(k, "retention.ms")
}

/// The rows of a configuration table.
#[derive(Debug)]
pub struct ConfigRows {
    /// Every setting, sorted by key.
    pub all: Vec<(String, String)>,
    /// The highlighted settings, sorted by key.
    pub highlighted: Vec<(String, String)>,
    /// Whether expanding the table shows more settings.
    pub has_more: bool,
}

impl ConfigRows {
    /// The rows shown: all of them when expanded, the highlighted ones
    /// otherwise.
    pub fn shown(&self, show_all: bool) -> (r: &Vec<(String, String)>)
        ensures
            r == (if show_all {
                &self.all
            } else {
                &self.highlighted
            }),
    {
        if show_all {
            &self.all
        } else {
            &self.highlighted
        }
    }
}

/// The position at which `key` goes in the sorted list `s`: after every
/// key that comes before it.
fn insertion_point(s: &Vec<(String, String)>, key: &String) -> (p: usize)
    requires
        sorted_by_key(entry_views(s@)),
    ensures
        p <= s@.len(),
        forall|i: int| 0 <= i < p ==> lex_le(entry_views(s@)[i].0, key@) && entry_views(s@)[i].0 != key@,
        p < s@.len() ==> lex_le(key@, entry_views(s@)[p as int].0),
{
    let ghost e = entry_views(s@);
    let n: usize = s.len();
    let mut i: usize = 0;
    while i < n
        invariant
            n == s@.len(),
            e == entry_views(s@),
            e.len() == n,
            i <= n,
            forall|j: int| 0 <= j < i ==> lex_le(e[j].0, key@) && e[j].0 != key@,
        decreases n - i,
    {
        assert(e[i as int].0 == s@[i as int].0@);
        if str_lex_le(key.as_str(), s[i].0.as_str()) {
            return i;
        }
        proof {
            lemma_lex_total(key@, e[i as int].0);
        }
        i = i + 1;
    }
    i
}

/// The rows of the configuration table of `config`.
pub fn config_rows(config: &KafkaProperties) -> (r: ConfigRows)
    ensures
        sorted_by_key(entry_views(r.all@)),
        keys_distinct(entry_views(r.all@)),
        pairs_to_map(entry_views(r.all@)) == config@,
        entry_views(r.highlighted@) == highlighted(entry_views(r.all@)),
        r.has_more == (r.all@.len() > r.highlighted@.len()),
{
    let src = config.iter();
    let ghost pairs = entry_views(src@);
    let n: usize = src.len();
    let mut all: Vec<(String, String)> = Vec::new();
    let mut i: usize = 0;
    while i < n
        invariant
            n == src@.len(),
            pairs == entry_views(src@),
            pairs.len() == n,
            keys_distinct(pairs),
            pairs_to_map(pairs) == config@,
            i <= n,
            sorted_by_key(entry_views(all@)),
            keys_distinct(entry_views(all@)),
            entry_views(all@).len() == all@.len(),
            forall|x: (Seq<char>, Seq<char>)| #[trigger] entry_views(all@).contains(x) <==> pairs.take(
                i as int,
            ).contains(x),
        decreases n - i,
    {
        let k = src[i].0.clone();
        let v = src[i].1.clone();
        assert(pairs[i as int] == (k@, v@));
        let p = insertion_point(&all, &k);
        let ghost before = entry_views(all@);
        proof {
            assert(!has_key(before, k@)) by {
                if has_key(before, k@) {
                    let j = choose|j: int| 0 <= j < before.len() && #[trigger] before[j].0 == k@;
                    assert(before.contains(before[j]));
                    assert(pairs.take(i as int).contains(before[j]));
                    let q = choose|q: int| 0 <= q < i && pairs.take(i as int)[q] == before[j];
                    assert(pairs[q].0 == pairs[i as int].0);
                }
            }
        }
        all.insert(p, (k, v));
        proof {
            let after = entry_views(all@);
            assert(after =~= before.insert(p as int, (k@, v@)));
            assert forall|a: int, b: int| 0 <= a < b < after.len() implies lex_le(
                #[trigger] after[a].0,
                #[trigger] after[b].0,
            ) by {
                if b < p {
                    assert(after[a] == before[a] && after[b] == before[b]);
                } else if b == p {
                    assert(after[a] == before[a]);
                } else if a < p {
                    assert(after[a] == before[a] && after[b] == before[b - 1]);
                } else if a == p {
                    assert(after[b] == before[b - 1]);
                    assert(lex_le(k@, before[p as int].0));
                    if b - 1 > p {
                        lemma_lex_transitive(k@, before[p as int].0, before[b - 1].0);
                    }
                } else {
                    assert(after[a] == before[a - 1] && after[b] == before[b - 1]);
                }
            }
            assert forall|a: int, b: int| 0 <= a < after.len() && 0 <= b < after.len() && a != b implies #[trigger] after[a].0
                != #[trigger] after[b].0 by {
                let sa = if a < p { a } else if a == p { -1 } else { a - 1 };
                let sb = if b < p { b } else if b == p { -1 } else { b - 1 };
                if sa >= 0 {
                    assert(after[a] == before[sa]);
                }
                if sb >= 0 {
                    assert(after[b] == before[sb]);
                }
                if sa < 0 {
                    assert(before[sb].0 != k@);
                }
                if sb < 0 {
                    assert(before[sa].0 != k@);
                }
            }
            assert forall|x: (Seq<char>, Seq<char>)| #[trigger] after.contains(x) <==> pairs.take(
                i as int + 1,
            ).contains(x) by {
                assert(pairs.take(i as int + 1) =~= pairs.take(i as int).push((k@, v@)));
                if after.contains(x) {
                    let j = choose|j: int| 0 <= j < after.len() && after[j] == x;
                    if j < p {
                        assert(before[j] == x);
                        assert(before.contains(x));
                    } else if j > p {
                        assert(before[j - 1] == x);
                        assert(before.contains(x));
                    }
                    if x != (k@, v@) {
                        let t0 = pairs.take(i as int);
                        let q = choose|q: int| 0 <= q < t0.len() && #[trigger] t0[q] == x;
                        assert(pairs.take(i as int + 1)[q] == x);
                    } else {
                        assert(pairs.take(i as int + 1)[i as int] == x);
                    }
                }
                let t1 = pairs.take(i as int + 1);
                if t1.contains(x) {
                    let q = choose|q: int| 0 <= q < t1.len() && #[trigger] t1[q] == x;
                    if q < i {
                        assert(pairs.take(i as int)[q] == x);
                        assert(before.contains(x));
                        let j = choose|j: int| 0 <= j < before.len() && before[j] == x;
                        if j < p {
                            assert(after[j] == x);
                        } else {
                            assert(after[j + 1] == x);
                        }
                    } else {
                        assert(after[p as int] == x);
                    }
                }
            }
        }
        i = i + 1;
    }
    proof {
        assert(pairs.take(n as int) =~= pairs);
        lemma_same_pairs_same_map(entry_views(all@), pairs);
    }
    let mut hl: Vec<(String, String)> = Vec::new();
    let m: usize = all.len();
    let mut j: usize = 0;
    while j < m
        invariant
            m == all@.len(),
            j <= m,
            entry_views(hl@) == highlighted(entry_views(all@).take(j as int)),
        decreases m - j,
    {
        proof {
            let e = entry_views(all@);
            assert(e.take(j as int + 1).drop_last() =~= e.take(j as int));
            assert(e.take(j as int + 1).last() == e[j as int]);
            assert(e[j as int].0 == all@[j as int].0@);
        }
        if is_highlighted_key(&all[j].0) {
            let row = (all[j].0.clone(), all[j].1.clone());
            proof {
                assert(entry_views(hl@.push(row)) =~= entry_views(hl@).push(entry_views(all@)[j as int]));
            }
            hl.push(row);
        }
        j = j + 1;
    }
    assert(entry_views(all@).take(m as int) =~= entry_views(all@));
    let has_more = all.len() > hl.len();
    ConfigRows { all, highlighted: hl, has_more }
}

/// Two lists with distinct keys and the same pairs denote the same map.
pub proof fn lemma_same_pairs_same_map(s: Seq<(Seq<char>, Seq<char>)>, t: Seq<(Seq<char>, Seq<char>)>)
    requires
        keys_distinct(s),
        keys_distinct(t),
        forall|x: (Seq<char>, Seq<char>)| #![trigger s.contains(x)] #![trigger t.contains(x)] s.contains(x) <==> t.contains(x),
    ensures
        pairs_to_map(s) == pairs_to_map(t),
{
    assert forall|k: Seq<char>| has_key(s, k) == has_key(t, k) by {
        if has_key(s, k) {
            let i = choose|i: int| 0 <= i < s.len() && #[trigger] s[i].0 == k;
            assert(s.contains(s[i]));
            let j = choose|j: int| 0 <= j < t.len() && t[j] == s[i];
            assert(t[j].0 == k);
        }
        if has_key(t, k) {
            let i = choose|i: int| 0 <= i < t.len() && #[trigger] t[i].0 == k;
            assert(t.contains(t[i]));
            let j = choose|j: int| 0 <= j < s.len() && s[j] == t[i];
            assert(s[j].0 == k);
        }
    }
    assert forall|k: Seq<char>| #[trigger] pairs_to_map(s).contains_key(k) implies pairs_to_map(s)[k]
        == pairs_to_map(t)[k] by {
        let i = choose|i: int| 0 <= i < s.len() && #[trigger] s[i].0 == k;
        crate::keyed::lemma_lookup(s, i);
        assert(s.contains(s[i]));
        let j = choose|j: int| 0 <= j < t.len() && t[j] == s[i];
        crate::keyed::lemma_lookup(t, j);
    }
    assert(pairs_to_map(s) =~= pairs_to_map(t));
}

} // verus!
