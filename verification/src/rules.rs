//! The list of violated policy rules offered for filtering: entries are
//! `(display_name, rule_id)` pairs, ordered by name, each rule ID once.
use vstd::prelude::*;
use vstd::multiset::Multiset;
use crate::text::{lemma_lex_total, lemma_lex_transitive, lex_le, lex_le_exec, str_eq};

verus! {

broadcast use vstd::seq_lib::group_to_multiset_ensures;

/// The entries are in name order.
pub open spec fn sorted_by_name(s: Seq<(String, String)>) -> bool {
    forall|i: int, j: int| 0 <= i < j < s.len() ==> lex_le(s[i].0@, s[j].0@)
}

/// Some entry of `s` has rule ID `id`.
pub open spec fn id_occurs(s: Seq<(String, String)>, id: Seq<char>) -> bool {
    exists|k: int| 0 <= k < s.len() && (#[trigger] s[k]).1@ == id
}

/// `s` keeping, for each rule ID, only the first entry that carries it.
pub open spec fn unique_ids(s: Seq<(String, String)>) -> Seq<(String, String)>
    decreases s.len(),
{
    if s.len() == 0 {
        s
    } else if id_occurs(s.drop_last(), s.last().1@) {
        unique_ids(s.drop_last())
    } else {
        unique_ids(s.drop_last()).push(s.last())
    }
}

/// `r` is what ordering `rules` by name and then keeping the first entry of
/// each rule ID gives, for some order among entries of equal name.
pub open spec fn organized(rules: Seq<(String, String)>, r: Seq<(String, String)>) -> bool {
    exists|s: Seq<(String, String)>|
        s.to_multiset() == rules.to_multiset() && sorted_by_name(s) && r == unique_ids(s)
}

proof fn lemma_insert_multiset<A>(s: Seq<A>, pos: int, x: A)
    requires
        0 <= pos <= s.len(),
    ensures
        s.insert(pos, x).to_multiset() == s.to_multiset().insert(x),
{
    let t = s.insert(pos, x);
    assert(t.remove(pos) =~= s);
    assert(t[pos] == x);
    assert(t.contains(x));
    assert(t.to_multiset().count(x) > 0);
    assert(s.to_multiset() == t.to_multiset().remove(x));
    assert(t.to_multiset() =~= t.to_multiset().remove(x).insert(x));
}

/// Orders the entries by name (entries of equal name in any order).
pub fn sort_by_name(rules: Vec<(String, String)>) -> (r: Vec<(String, String)>)
    ensures
        r@.to_multiset() == rules@.to_multiset(),
        sorted_by_name(r@),
{
    let ghost all = rules@;
    let mut rest = rules;
    let mut out: Vec<(String, String)> = Vec::new();
    assert(out@.to_multiset() =~= Multiset::empty());
    while rest.len() > 0
        invariant
            sorted_by_name(out@),
            out@.to_multiset().add(rest@.to_multiset()) == all.to_multiset(),
        decreases rest@.len(),
    {
        let ghost before_rest = rest@;
        let x = rest.pop().unwrap();
        proof {
            assert(before_rest =~= rest@.push(x));
        }
        let mut pos: usize = 0;
        while pos < out.len() && lex_le_exec(out[pos].0.as_str(), x.0.as_str())
            invariant
                pos <= out@.len(),
                forall|k: int| 0 <= k < pos ==> lex_le(out@[k].0@, x.0@),
            decreases out@.len() - pos,
        {
            pos = pos + 1;
        }
        let ghost old_out = out@;
        proof {
            lemma_insert_multiset(old_out, pos as int, x);
            if pos < old_out.len() {
                lemma_lex_total(old_out[pos as int].0@, x.0@);
            }
        }
        out.insert(pos, x);
        proof {
            let t = out@;
            assert forall|i: int, j: int| 0 <= i < j < t.len() implies lex_le(
                t[i].0@,
                t[j].0@,
            ) by {
                if j < pos {
                    assert(t[i] == old_out[i] && t[j] == old_out[j]);
                } else if j == pos {
                    assert(t[i] == old_out[i]);
                } else if i < pos {
                    assert(t[i] == old_out[i] && t[j] == old_out[j - 1]);
                } else if i == pos {
                    assert(t[j] == old_out[j - 1]);
                    if j - 1 > pos {
                        lemma_lex_transitive(x.0@, old_out[pos as int].0@, old_out[j - 1].0@);
                    }
                } else {
                    assert(t[i] == old_out[i - 1] && t[j] == old_out[j - 1]);
                }
            }
            assert(out@.to_multiset().add(rest@.to_multiset()) =~= all.to_multiset());
        }
    }
    assert(rest@.to_multiset() =~= Multiset::empty());
    assert(out@.to_multiset().add(rest@.to_multiset()) =~= out@.to_multiset());
    out
}

fn has_id(out: &Vec<(String, String)>, id: &str) -> (b: bool)
    ensures
        b == id_occurs(out@, id@),
{
    let mut k: usize = 0;
    while k < out.len()
        invariant
            k <= out@.len(),
            forall|j: int| 0 <= j < k ==> (#[trigger] out@[j]).1@ != id@,
        decreases out@.len() - k,
    {
        if str_eq(out[k].1.as_str(), id) {
            return true;
        }
        k = k + 1;
    }
    false
}

/// The rule IDs of `unique_ids(s)` are those of `s`, each once; its
/// entries are entries of `s`, and it keeps the name order.
pub proof fn lemma_unique_ids(s: Seq<(String, String)>)
    ensures
        forall|i: int, j: int|
            0 <= i < j < unique_ids(s).len() ==> (#[trigger] unique_ids(s)[i]).1@
                != (#[trigger] unique_ids(s)[j]).1@,
        forall|id: Seq<char>| #[trigger] id_occurs(unique_ids(s), id) <==> id_occurs(s, id),
        forall|i: int| 0 <= i < unique_ids(s).len() ==> s.contains(#[trigger] unique_ids(s)[i]),
        sorted_by_name(s) ==> sorted_by_name(unique_ids(s)),
        unique_ids(s).len() <= s.len(),
    decreases s.len(),
{
    if s.len() > 0 {
        let init = s.drop_last();
        let x = s.last();
        lemma_unique_ids(init);
        let d = unique_ids(init);
        assert forall|i: int| 0 <= i < d.len() implies s.contains(#[trigger] d[i]) by {
            let k = choose|k: int| 0 <= k < init.len() && init[k] == d[i];
            assert(s[k] == d[i]);
        }
        assert(s[s.len() - 1] == x);
        assert forall|id: Seq<char>| #[trigger] id_occurs(s, id) <==> (id_occurs(init, id) || x.1@
            == id) by {
            if id_occurs(s, id) {
                let k = choose|k: int| 0 <= k < s.len() && (#[trigger] s[k]).1@ == id;
                if k < init.len() {
                    assert(init[k] == s[k]);
                }
            }
            if id_occurs(init, id) {
                let k = choose|k: int| 0 <= k < init.len() && (#[trigger] init[k]).1@ == id;
                assert(s[k] == init[k]);
            }
        }
        if !id_occurs(init, x.1@) {
            let r = d.push(x);
            assert forall|id: Seq<char>| #[trigger] id_occurs(r, id) <==> id_occurs(s, id) by {
                if id_occurs(r, id) {
                    let k = choose|k: int| 0 <= k < r.len() && (#[trigger] r[k]).1@ == id;
                    if k < d.len() {
                        assert(r[k] == d[k]);
                        assert(id_occurs(d, id));
                    }
                }
                if id_occurs(d, id) {
                    let k = choose|k: int| 0 <= k < d.len() && (#[trigger] d[k]).1@ == id;
                    assert(r[k] == d[k]);
                }
                if x.1@ == id {
                    assert(r[d.len() as int] == x);
                }
            }
            assert forall|i: int, j: int| 0 <= i < j < r.len() implies (#[trigger] r[i]).1@
                != (#[trigger] r[j]).1@ by {
                assert(r[i] == d[i]);
                if j < d.len() {
                    assert(r[j] == d[j]);
                } else {
                    assert(r[j] == x);
                    if d[i].1@ == x.1@ {
                        assert(id_occurs(d, x.1@));
                    }
                }
            }
            if sorted_by_name(s) {
                assert forall|i: int, j: int| 0 <= i < j < init.len() implies lex_le(
                    init[i].0@,
                    init[j].0@,
                ) by {
                    assert(init[i] == s[i] && init[j] == s[j]);
                }
                assert forall|i: int| 0 <= i < d.len() implies #[trigger] lex_le(
                    d[i].0@,
                    x.0@,
                ) by {
                    let k = choose|k: int| 0 <= k < init.len() && init[k] == d[i];
                    assert(s[k] == d[i]);
                }
                assert forall|i: int, j: int| 0 <= i < j < r.len() implies lex_le(
                    r[i].0@,
                    r[j].0@,
                ) by {
                    assert(r[i] == d[i]);
                    if j < d.len() {
                        assert(r[j] == d[j]);
                    }
                }
            }
        } else {
            if sorted_by_name(s) {
                assert forall|i: int, j: int| 0 <= i < j < init.len() implies lex_le(
                    init[i].0@,
                    init[j].0@,
                ) by {
                    assert(init[i] == s[i] && init[j] == s[j]);
                }
            }
        }
    }
}

/// Keeps, for each rule ID, only the first entry that carries it.
pub fn dedup_by_id(rules: Vec<(String, String)>) -> (r: Vec<(String, String)>)
    ensures
        r@ == unique_ids(rules@),
{
    let ghost all = rules@;
    let n = rules.len();
    let mut out: Vec<(String, String)> = Vec::new();
    let mut i: usize = 0;
    let mut rest = rules;
    assert(rest@ =~= all.subrange(0, n as int));
    proof {
        lemma_unique_ids(all.take(0));
    }
    while i < n
        invariant
            i <= n,
            n == all.len(),
            rest@ == all.subrange(i as int, n as int),
            out@ == unique_ids(all.take(i as int)),
            forall|id: Seq<char>| #[trigger] id_occurs(out@, id) <==> id_occurs(all.take(i as int), id),
        decreases n - i,
    {
        let x = rest.remove(0);
        proof {
            assert(x == all[i as int]);
            assert(rest@ =~= all.subrange(i + 1, n as int));
            assert(all.take(i + 1).drop_last() =~= all.take(i as int));
            assert(all.take(i + 1).last() == x);
            lemma_unique_ids(all.take(i + 1));
        }
        let seen = has_id(&out, x.1.as_str());
        if !seen {
            out.push(x);
        }
        i = i + 1;
    }
    assert(all.take(n as int) =~= all);
    out
}

/// Orders the entries by name and keeps the first entry of each rule ID.
pub fn organize_policy_rules(rules: Vec<(String, String)>) -> (r: Vec<(String, String)>)
    ensures
        organized(rules@, r@),
{
    let sorted = sort_by_name(rules);
    let ghost s = sorted@;
    let r = dedup_by_id(sorted);
    assert(s.to_multiset() == rules@.to_multiset() && sorted_by_name(s) && r@ == unique_ids(s));
    r
}

/// The offered rules are in name order, no two of them share a rule ID,
/// their rule IDs are exactly those received, and every offered entry is
/// one of the received entries.
pub proof fn law_offered_rules(rules: Seq<(String, String)>, r: Seq<(String, String)>)
    requires
        organized(rules, r),
    ensures
        sorted_by_name(r),
        forall|i: int, j: int| 0 <= i < j < r.len() ==> (#[trigger] r[i]).1@ != (#[trigger] r[j]).1@,
        forall|id: Seq<char>| #[trigger] id_occurs(r, id) <==> id_occurs(rules, id),
        forall|i: int| 0 <= i < r.len() ==> rules.contains(#[trigger] r[i]),
        r.len() <= rules.len(),
{
    let s = choose|s: Seq<(String, String)>|
        s.to_multiset() == rules.to_multiset() && sorted_by_name(s) && r == unique_ids(s);
    lemma_unique_ids(s);
    assert(s.to_multiset().len() == rules.to_multiset().len());
    assert(s.len() == rules.len());
    assert forall|i: int| 0 <= i < r.len() implies rules.contains(#[trigger] r[i]) by {
        assert(s.contains(r[i]));
        assert(s.to_multiset().count(r[i]) > 0);
    }
    assert forall|id: Seq<char>| #[trigger] id_occurs(s, id) <==> id_occurs(rules, id) by {
        if id_occurs(s, id) {
            let k = choose|k: int| 0 <= k < s.len() && (#[trigger] s[k]).1@ == id;
            assert(s.contains(s[k]));
            assert(rules.to_multiset().count(s[k]) > 0);
            let j = choose|j: int| 0 <= j < rules.len() && rules[j] == s[k];
            assert(rules[j].1@ == id);
        }
        if id_occurs(rules, id) {
            let k = choose|k: int| 0 <= k < rules.len() && (#[trigger] rules[k]).1@ == id;
            assert(rules.contains(rules[k]));
            assert(s.to_multiset().count(rules[k]) > 0);
            let j = choose|j: int| 0 <= j < s.len() && s[j] == rules[k];
            assert(s[j].1@ == id);
        }
    }
}

} // verus!
