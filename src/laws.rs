//! General properties of the query encoder, stated over any declared field
//! list. Each parameter type instantiates them for its own fields.

use vstd::prelude::*;

use crate::query::{entry_text, field_pair, join_entries, present, FieldView, PairView};

verus! {

/// No two declared fields share a key.
pub open spec fn distinct_keys(fl: Seq<FieldView>) -> bool {
    forall|i: int, j: int| 0 <= i < j < fl.len() ==> fl[i].0 != fl[j].0
}

/// Some pair of `p` has key `k`.
pub open spec fn has_key(p: Seq<PairView>, k: Seq<char>) -> bool {
    exists|i: int| 0 <= i < p.len() && p[i].0 == k
}

/// Every pair comes from a set field with that key and value.
pub open spec fn pairs_from_fields(p: Seq<PairView>, fl: Seq<FieldView>) -> bool {
    forall|i: int|
        0 <= i < p.len() ==> exists|j: int|
            0 <= j < fl.len() && #[trigger] fl[j].0 == #[trigger] p[i].0 && fl[j].1 == Some(p[i].1)
}

/// The pairs follow the declared order of their fields.
pub open spec fn in_declared_order(p: Seq<PairView>, fl: Seq<FieldView>) -> bool {
    forall|i1: int, i2: int, j1: int, j2: int|
        0 <= i1 < i2 < p.len() && 0 <= j1 < fl.len() && 0 <= j2 < fl.len() && fl[j1].0 == p[i1].0
            && fl[j2].0 == p[i2].0 ==> j1 < j2
}

/// Every field is set.
pub open spec fn all_set(fl: Seq<FieldView>) -> bool {
    forall|j: int| 0 <= j < fl.len() ==> fl[j].1 is Some
}

/// Number of pairs of `p` with key `k`.
pub open spec fn key_count(p: Seq<PairView>, k: Seq<char>) -> nat
    decreases p.len(),
{
    if p.len() == 0 {
        0
    } else {
        key_count(p.drop_last(), k) + if p.last().0 == k {
            1nat
        } else {
            0nat
        }
    }
}

/// Each pair comes from a set field with the same key and value.
pub proof fn lemma_pairs_from_fields(fl: Seq<FieldView>)
    ensures
        pairs_from_fields(present(fl), fl),
    decreases fl.len(),
{
    if fl.len() > 0 {
        let init = fl.drop_last();
        lemma_pairs_from_fields(init);
        let p = present(fl);
        assert forall|i: int| 0 <= i < p.len() implies exists|j: int|
            0 <= j < fl.len() && #[trigger] fl[j].0 == #[trigger] p[i].0 && fl[j].1 == Some(p[i].1) by {
            if i < present(init).len() {
                let j = choose|j: int|
                    0 <= j < init.len() && init[j].0 == present(init)[i].0 && init[j].1 == Some(
                        present(init)[i].1,
                    );
                assert(fl[j] == init[j]);
            } else {
                assert(fl[fl.len() - 1] == fl.last());
            }
        }
    }
}

/// A key has a pair exactly when its field is set: unset fields never
/// appear in the encoding, set fields always do.
pub proof fn lemma_unset_fields_omitted(fl: Seq<FieldView>)
    requires
        distinct_keys(fl),
    ensures
        forall|j: int| 0 <= j < fl.len() ==> (has_key(present(fl), fl[j].0) <==> fl[j].1 is Some),
    decreases fl.len(),
{
    if fl.len() > 0 {
        let init = fl.drop_last();
        let p = present(fl);
        lemma_unset_fields_omitted(init);
        lemma_pairs_from_fields(init);
        assert forall|j: int| 0 <= j < fl.len() implies (has_key(p, fl[j].0) <==> fl[j].1 is Some) by {
            let last = fl.len() - 1;
            if j < last {
                assert(fl[j] == init[j]);
                if has_key(p, fl[j].0) {
                    let i = choose|i: int| 0 <= i < p.len() && p[i].0 == fl[j].0;
                    if i >= present(init).len() {
                        assert(p[i] == (fl.last().0, fl.last().1->Some_0));
                        assert(fl[last].0 == fl[j].0);
                    } else {
                        assert(p[i] == present(init)[i]);
                    }
                }
                if fl[j].1 is Some {
                    let i = choose|i: int| 0 <= i < present(init).len() && present(init)[i].0 == init[j].0;
                    assert(p[i] == present(init)[i]);
                }
            } else {
                if fl[j].1 is Some {
                    let i = present(init).len() as int;
                    assert(p[i].0 == fl[j].0);
                }
                if has_key(p, fl[j].0) && fl[j].1 is None {
                    let i = choose|i: int| 0 <= i < p.len() && p[i].0 == fl[j].0;
                    assert(p =~= present(init));
                    let k = choose|k: int|
                        0 <= k < init.len() && init[k].0 == present(init)[i].0 && init[k].1 == Some(
                            present(init)[i].1,
                        );
                    assert(fl[k].0 == fl[last].0);
                }
            }
        }
    }
}

/// The pairs appear in the declared order of their fields, whatever order
/// the fields were set in.
pub proof fn lemma_declared_order(fl: Seq<FieldView>)
    requires
        distinct_keys(fl),
    ensures
        in_declared_order(present(fl), fl),
    decreases fl.len(),
{
    if fl.len() > 0 {
        let init = fl.drop_last();
        let p = present(fl);
        let pi = present(init);
        lemma_declared_order(init);
        lemma_pairs_from_fields(init);
        assert forall|i1: int, i2: int, j1: int, j2: int|
            0 <= i1 < i2 < p.len() && 0 <= j1 < fl.len() && 0 <= j2 < fl.len() && fl[j1].0
                == p[i1].0 && fl[j2].0 == p[i2].0 implies j1 < j2 by {
            let last = fl.len() - 1;
            assert(p[i1] == pi[i1]);
            let k1 = choose|k: int|
                0 <= k < init.len() && init[k].0 == pi[i1].0 && init[k].1 == Some(pi[i1].1);
            assert(fl[k1] == init[k1]);
            assert(j1 == k1);
            if i2 < pi.len() {
                assert(p[i2] == pi[i2]);
                let k2 = choose|k: int|
                    0 <= k < init.len() && init[k].0 == pi[i2].0 && init[k].1 == Some(pi[i2].1);
                assert(fl[k2] == init[k2]);
                assert(j2 == k2);
                assert(init[j1].0 == pi[i1].0 && init[j2].0 == pi[i2].0);
            } else {
                assert(p[i2].0 == fl[last].0);
                assert(j2 == last);
            }
        }
    }
}

/// With every field set, each key appears exactly once, with its value.
pub proof fn lemma_all_set_present(fl: Seq<FieldView>)
    requires
        all_set(fl),
    ensures
        present(fl).len() == fl.len(),
        forall|j: int| 0 <= j < fl.len() ==> present(fl)[j] == (fl[j].0, fl[j].1->Some_0),
    decreases fl.len(),
{
    if fl.len() > 0 {
        let init = fl.drop_last();
        assert forall|j: int| 0 <= j < init.len() implies init[j].1 is Some by {
            assert(init[j] == fl[j]);
        }
        lemma_all_set_present(init);
        assert forall|j: int| 0 <= j < fl.len() implies present(fl)[j] == (
            fl[j].0,
            fl[j].1->Some_0,
        ) by {
            if j < init.len() {
                assert(init[j] == fl[j]);
            }
        }
    }
}

/// With every field set and distinct keys, each key is counted once.
pub proof fn lemma_all_set_once(fl: Seq<FieldView>)
    requires
        all_set(fl),
        distinct_keys(fl),
    ensures
        forall|j: int| 0 <= j < fl.len() ==> key_count(present(fl), #[trigger] fl[j].0) == 1,
{
    lemma_all_set_present(fl);
    assert forall|j: int| 0 <= j < fl.len() implies key_count(present(fl), #[trigger] fl[j].0)
        == 1 by {
        lemma_count_distinct(present(fl), fl, j);
    }
}

proof fn lemma_count_distinct(p: Seq<PairView>, fl: Seq<FieldView>, j: int)
    requires
        distinct_keys(fl),
        p.len() <= fl.len(),
        forall|i: int| 0 <= i < p.len() ==> p[i].0 == fl[i].0,
        0 <= j < fl.len(),
    ensures
        key_count(p, fl[j].0) == if j < p.len() {
            1nat
        } else {
            0nat
        },
    decreases p.len(),
{
    if p.len() > 0 {
        let init = p.drop_last();
        lemma_count_distinct(init, fl, j);
        assert(p.last().0 == fl[p.len() - 1].0);
    }
}

// ---------------------------------------------------------------- parsing

/// Position of the last `c` in `s`, or -1.
pub open spec fn last_index_of(s: Seq<char>, c: char) -> int
    decreases s.len(),
{
    if s.len() == 0 {
        -1
    } else if s.last() == c {
        s.len() - 1
    } else {
        last_index_of(s.drop_last(), c)
    }
}

/// `key:value` read back into its key and value.
pub open spec fn parse_entry(s: Seq<char>) -> PairView {
    let i = last_index_of(s, ':');
    (s.take(i), s.skip(i + 1))
}

/// A comma-joined list of `key:value` entries read back into pairs.
pub open spec fn parse_entries(s: Seq<char>) -> Seq<PairView>
    decreases s.len(),
{
    let i = last_index_of(s, ',');
    if i < 0 || i >= s.len() {
        seq![parse_entry(s)]
    } else {
        parse_entries(s.take(i)) + seq![parse_entry(s.skip(i + 1))]
    }
}

/// Free of the characters that separate entries and their parts.
pub open spec fn plain_text(s: Seq<char>) -> bool {
    forall|i: int| 0 <= i < s.len() ==> s[i] != ',' && s[i] != ':'
}

proof fn lemma_last_index_absent(s: Seq<char>, c: char)
    requires
        forall|i: int| 0 <= i < s.len() ==> s[i] != c,
    ensures
        last_index_of(s, c) == -1,
    decreases s.len(),
{
    if s.len() > 0 {
        lemma_last_index_absent(s.drop_last(), c);
    }
}

proof fn lemma_last_index_split(a: Seq<char>, b: Seq<char>, c: char)
    requires
        forall|i: int| 0 <= i < b.len() ==> b[i] != c,
    ensures
        last_index_of(a + seq![c] + b, c) == a.len(),
    decreases b.len(),
{
    let s = a + seq![c] + b;
    if b.len() == 0 {
        assert(s.last() == c);
    } else {
        assert(s.drop_last() =~= a + seq![c] + b.drop_last());
        lemma_last_index_split(a, b.drop_last(), c);
    }
}

proof fn lemma_parse_entry(e: PairView)
    requires
        plain_text(e.0),
        plain_text(e.1),
    ensures
        parse_entry(entry_text(e)) == e,
        forall|i: int| 0 <= i < entry_text(e).len() ==> entry_text(e)[i] != ',',
{
    let s = entry_text(e);
    lemma_last_index_split(e.0, e.1, ':');
    assert(s.take(e.0.len() as int) =~= e.0);
    assert(s.skip(e.0.len() as int + 1) =~= e.1);
}

/// Reading the joined entries back gives the same keys and values in the
/// same order, when no key or value holds a separator.
pub proof fn lemma_nested_round_trip(e: Seq<PairView>)
    requires
        e.len() > 0,
        forall|i: int| 0 <= i < e.len() ==> plain_text(e[i].0) && plain_text(e[i].1),
    ensures
        parse_entries(join_entries(e)) == e,
    decreases e.len(),
{
    let s = join_entries(e);
    lemma_parse_entry(e.last());
    if e.len() == 1 {
        lemma_parse_entry(e[0]);
        lemma_last_index_absent(s, ',');
        assert(parse_entries(s) =~= e);
    } else {
        let init = e.drop_last();
        lemma_nested_round_trip(init);
        let a = join_entries(init);
        lemma_last_index_split(a, entry_text(e.last()), ',');
        assert(s.take(a.len() as int) =~= a);
        assert(s.skip(a.len() as int + 1) =~= entry_text(e.last()));
        assert(parse_entries(s) =~= e);
    }
}

} // verus!

verus! {

/// Decimal notation holds digits only.
pub proof fn lemma_decimal_plain(n: nat)
    ensures
        plain_text(crate::text::decimal(n)),
    decreases n,
{
    if n >= 10 {
        lemma_decimal_plain(n / 10);
        let d = crate::text::decimal(n);
        let a = crate::text::decimal(n / 10);
        assert forall|i: int| 0 <= i < d.len() implies d[i] != ',' && d[i] != ':' by {
            if i < a.len() {
                assert(d[i] == a[i]);
            }
        }
    }
}

/// Every key and every set value of the fields is free of separators.
pub open spec fn plain_fields(fl: Seq<FieldView>) -> bool {
    forall|j: int|
        0 <= j < fl.len() ==> plain_text(#[trigger] fl[j].0) && (fl[j].1 matches Some(v)
            ==> plain_text(v))
}

/// Reading back the joined value of a fully set nested structure gives
/// each of its keys once, with its value, in declared order.
pub proof fn lemma_nested_full_round_trip(fl: Seq<FieldView>)
    requires
        fl.len() > 0,
        all_set(fl),
        distinct_keys(fl),
        plain_fields(fl),
    ensures
        parse_entries(join_entries(present(fl))) == present(fl),
        present(fl).len() == fl.len(),
        forall|j: int| 0 <= j < fl.len() ==> present(fl)[j] == (fl[j].0, fl[j].1->Some_0),
        forall|j: int| 0 <= j < fl.len() ==> key_count(present(fl), #[trigger] fl[j].0) == 1,
{
    lemma_all_set_present(fl);
    lemma_all_set_once(fl);
    let p = present(fl);
    assert forall|i: int| 0 <= i < p.len() implies plain_text(p[i].0) && plain_text(p[i].1) by {
        assert(plain_text(fl[i].0));
    }
    lemma_nested_round_trip(p);
}

} // verus!

verus! {

/// A key has a pair exactly when its field is set.
pub open spec fn omits_unset(fl: Seq<FieldView>) -> bool {
    forall|j: int| 0 <= j < fl.len() ==> (has_key(present(fl), #[trigger] fl[j].0) <==> fl[j].1 is Some)
}

/// Each key appears once, with the value of its field, in declared order.
pub open spec fn round_trips(fl: Seq<FieldView>) -> bool {
    &&& present(fl).len() == fl.len()
    &&& forall|j: int| 0 <= j < fl.len() ==> present(fl)[j] == (fl[j].0, fl[j].1->Some_0)
    &&& forall|j: int| 0 <= j < fl.len() ==> key_count(present(fl), #[trigger] fl[j].0) == 1
}

/// Decimal notation holds no separator, whatever the number.
pub proof fn lemma_decimals_plain()
    ensures
        forall|n: nat| plain_text(#[trigger] crate::text::decimal(n)),
{
    assert forall|n: nat| plain_text(#[trigger] crate::text::decimal(n)) by {
        lemma_decimal_plain(n);
    }
}

} // verus!

verus! {

/// Each field's key is counted once when the field is set, never otherwise.
pub open spec fn set_fields_once(fl: Seq<FieldView>) -> bool {
    forall|j: int|
        0 <= j < fl.len() ==> key_count(present(fl), #[trigger] fl[j].0) == if fl[j].1 is Some {
            1nat
        } else {
            0nat
        }
}

/// A pair with a field's key carries that field's value.
pub open spec fn pairs_carry_values(fl: Seq<FieldView>) -> bool {
    forall|i: int, j: int|
        0 <= i < present(fl).len() && 0 <= j < fl.len() && #[trigger] present(fl)[i].0
            == #[trigger] fl[j].0 ==> fl[j].1 == Some(present(fl)[i].1)
}

proof fn lemma_count_concat(a: Seq<PairView>, b: Seq<PairView>, k: Seq<char>)
    ensures
        key_count(a + b, k) == key_count(a, k) + key_count(b, k),
    decreases b.len(),
{
    if b.len() == 0 {
        assert(a + b =~= a);
    } else {
        assert((a + b).drop_last() =~= a + b.drop_last());
        assert((a + b).last() == b.last());
        lemma_count_concat(a, b.drop_last(), k);
    }
}

proof fn lemma_count_absent(p: Seq<PairView>, k: Seq<char>)
    requires
        !has_key(p, k),
    ensures
        key_count(p, k) == 0,
    decreases p.len(),
{
    if p.len() > 0 {
        assert(p.last() == p[p.len() - 1]);
        assert(!has_key(p.drop_last(), k)) by {
            if has_key(p.drop_last(), k) {
                let i = choose|i: int| 0 <= i < p.drop_last().len() && p.drop_last()[i].0 == k;
                assert(p[i] == p.drop_last()[i]);
            }
        }
        lemma_count_absent(p.drop_last(), k);
    }
}

/// Every set field gives exactly one pair, with its value; an unset field
/// gives none.
pub proof fn lemma_set_fields_once(fl: Seq<FieldView>)
    requires
        distinct_keys(fl),
    ensures
        set_fields_once(fl),
        pairs_carry_values(fl),
    decreases fl.len(),
{
    lemma_pairs_from_fields(fl);
    let p = present(fl);
    assert forall|i: int, j: int|
        0 <= i < p.len() && 0 <= j < fl.len() && #[trigger] p[i].0 == #[trigger] fl[j].0 implies fl[j].1
        == Some(p[i].1) by {
        let k = choose|k: int|
            0 <= k < fl.len() && #[trigger] fl[k].0 == #[trigger] p[i].0 && fl[k].1 == Some(p[i].1);
    }
    if fl.len() > 0 {
        let init = fl.drop_last();
        let last = fl.len() - 1;
        lemma_set_fields_once(init);
        lemma_pairs_from_fields(init);
        assert forall|j: int| 0 <= j < fl.len() implies key_count(p, #[trigger] fl[j].0) == if fl[
            j
        ].1 is Some {
            1nat
        } else {
            0nat
        } by {
            let k = fl[j].0;
            lemma_count_concat(present(init), field_pair(fl.last()), k);
            let fp = field_pair(fl.last());
            assert(key_count(Seq::<PairView>::empty(), k) == 0);
            if fp.len() == 1 {
                assert(fp.drop_last() =~= Seq::<PairView>::empty());
                assert(fp.last() == fp[0]);
                assert(fp[0].0 == fl.last().0);
                assert(key_count(fp, k) == if fl.last().0 == k {
                    1nat
                } else {
                    0nat
                });
            } else {
                assert(fp =~= Seq::<PairView>::empty());
            }
            assert(fl.last() == fl[last]);
            if j < last {
                assert(fl[j] == init[j]);
                assert(fl.last().0 != k);
                assert(key_count(present(init), init[j].0) == if init[j].1 is Some {
                    1nat
                } else {
                    0nat
                });
            } else {
                assert(!has_key(present(init), k)) by {
                    if has_key(present(init), k) {
                        let i = choose|i: int| 0 <= i < present(init).len() && present(init)[i].0 == k;
                        let m = choose|m: int|
                            0 <= m < init.len() && #[trigger] init[m].0 == #[trigger] present(init)[i].0
                                && init[m].1 == Some(present(init)[i].1);
                        assert(fl[m] == init[m]);
                    }
                }
                lemma_count_absent(present(init), k);
            }
        }
    }
}

} // verus!
