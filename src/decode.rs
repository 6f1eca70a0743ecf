//! Reshaping of response bodies that do not match the model one for one:
//! nullable item pairs, wrapped row lists, one-element creature lists,
//! numbers written as text and percentage values.

use vstd::prelude::*;

use crate::model::{Creature, Item, Rune, ShopObtainInfo, StatusValue, Talisman};
use crate::raw;

verus! {

impl Talisman {
    /// A talisman from its runes and the fields of its `talisman` object.
    pub fn from_parts(runes: Vec<Rune>, item_id: String, item_name: String, slot_no: u8) -> (r:
        Talisman)
        ensures
            r.slot_no == slot_no,
            r.item.id == item_id && r.item.name == item_name,
            r.runes == runes,
    {
        Talisman { slot_no, item: Item { id: item_id, name: item_name }, runes }
    }
}

/// An item whose id and name may both be null: an item only when both are
/// present.
pub fn opt_item(item_id: Option<String>, item_name: Option<String>) -> (r: Option<Item>)
    ensures
        r is Some <==> (item_id is Some && item_name is Some),
        r matches Some(i) ==> Some(i.id) == item_id && Some(i.name) == item_name,
{
    match (item_id, item_name) {
        (Some(id), Some(name)) => Some(Item { id, name }),
        _ => None,
    }
}

/// Message of a creature list that is present but empty.
pub const EMPTY_CREATURES: &'static str = "buff creature should be at least one";

/// The creature of a buff lookup, sent as a list: its last element, none
/// when the list is absent, an error when it is empty.
pub fn creature_vec_pop(creatures: Option<Vec<Creature>>) -> (r: Result<Option<Creature>, String>)
    ensures
        creatures is None ==> r == Ok::<Option<Creature>, String>(None),
        creatures matches Some(v) ==> (v.len() == 0 <==> r is Err),
        creatures matches Some(v) ==> (v.len() > 0 ==> r == Ok::<Option<Creature>, String>(
            Some(v@.last()),
        )),
        r matches Err(m) ==> m@ == EMPTY_CREATURES@,
{
    match creatures {
        None => Ok(None),
        Some(mut v) => match v.pop() {
            Some(c) => Ok(Some(c)),
            None => Err(EMPTY_CREATURES.to_owned()),
        },
    }
}

/// `[{"name": a}, {"name": b}, ...]` to `[a, b, ...]`.
pub fn flatten_rows(rows: Vec<raw::DungeonObtainInfoRow>) -> (r: Vec<String>)
    ensures
        r@.len() == rows@.len(),
        forall|i: int| 0 <= i < rows@.len() ==> r@[i]@ == rows@[i].name@,
{
    let mut out: Vec<String> = Vec::new();
    let mut i: usize = 0;
    while i < rows.len()
        invariant
            i <= rows.len(),
            out@.len() == i,
            forall|k: int| 0 <= k < i ==> out@[k]@ == rows@[k].name@,
        decreases rows.len() - i,
    {
        out.push(rows[i].name.clone());
        i = i + 1;
    }
    out
}

/// Every shop row, in order.
pub open spec fn shop_rows(shops: Seq<raw::ShopObtainInfo>) -> Seq<raw::ShopObtainInfoRow>
    decreases shops.len(),
{
    if shops.len() == 0 {
        seq![]
    } else {
        shop_rows(shops.drop_last()) + shops.last().rows@
    }
}

/// `[{"rows": [a, b]}, {"rows": [c]}]` to `[a, b, c]`.
pub fn flatten_shop_obtain_info(shops: Vec<raw::ShopObtainInfo>) -> (r: Vec<ShopObtainInfo>)
    ensures
        r@.len() == shop_rows(shops@).len(),
        forall|i: int|
            0 <= i < r@.len() ==> r@[i].name@ == shop_rows(shops@)[i].name@ && r@[i].details.deep_view()
                == shop_rows(shops@)[i].details.deep_view(),
{
    let mut out: Vec<ShopObtainInfo> = Vec::new();
    let mut i: usize = 0;
    while i < shops.len()
        invariant
            i <= shops.len(),
            out@.len() == shop_rows(shops@.take(i as int)).len(),
            forall|k: int|
                0 <= k < out@.len() ==> out@[k].name@ == shop_rows(shops@.take(i as int))[k].name@
                    && out@[k].details.deep_view() == shop_rows(shops@.take(i as int))[k].details.deep_view(),
        decreases shops.len() - i,
    {
        let ghost before = out@;
        let ghost done = shop_rows(shops@.take(i as int));
        let rows = &shops[i].rows;
        let mut j: usize = 0;
        while j < rows.len()
            invariant
                j <= rows.len(),
                i < shops@.len(),
                rows == &shops@[i as int].rows,
                out@.len() == before.len() + j,
                before.len() == done.len(),
                forall|k: int| 0 <= k < before.len() ==> out@[k] == before[k],
                forall|k: int|
                    0 <= k < j ==> out@[before.len() + k].name@ == rows@[k].name@
                        && out@[before.len() + k].details.deep_view() == rows@[k].details.deep_view(),
            decreases rows.len() - j,
        {
            out.push(ShopObtainInfo { name: rows[j].name.clone(), details: rows[j].details.clone() });
            j = j + 1;
        }
        proof {
            assert(shops@.take(i + 1).drop_last() =~= shops@.take(i as int));
            assert(shops@.take(i + 1).last() == shops@[i as int]);
            let now = shop_rows(shops@.take(i + 1));
            assert(now == done + rows@);
            assert forall|k: int| 0 <= k < out@.len() implies out@[k].name@ == now[k].name@
                && out@[k].details.deep_view() == now[k].details.deep_view() by {
                if k >= before.len() {
                    let k2 = k - before.len();
                    assert(now[k] == rows@[k2]);
                    assert(out@[before.len() + k2] == out@[k]);
                    assert(out@[k].name@ == rows@[k2].name@);
                    assert(out@[k].details.deep_view() == rows@[k2].details.deep_view());
                } else {
                    assert(now[k] == done[k]);
                    assert(out@[k] == before[k]);
                    assert(before[k].name@ == done[k].name@);
                }
            }
        }
        i = i + 1;
    }
    assert(shops@.take(shops@.len() as int) =~= shops@);
    out
}

} // verus!

verus! {

pub open spec fn is_digit(c: char) -> bool {
    '0' <= c <= '9'
}

/// Value of a string of decimal digits.
pub open spec fn numeral_value(s: Seq<char>) -> int
    decreases s.len(),
{
    if s.len() == 0 {
        0
    } else {
        numeral_value(s.drop_last()) * 10 + (s.last() as int - '0' as int)
    }
}

/// One or more decimal digits.
pub open spec fn is_numeral(s: Seq<char>) -> bool {
    s.len() > 0 && forall|i: int| 0 <= i < s.len() ==> is_digit(#[trigger] s[i])
}

proof fn lemma_numeral_grows(s: Seq<char>, k: int)
    requires
        forall|i: int| 0 <= i < s.len() ==> is_digit(#[trigger] s[i]),
        0 <= k <= s.len(),
    ensures
        numeral_value(s.take(k)) <= numeral_value(s),
        0 <= numeral_value(s.take(k)),
    decreases s.len() - k,
{
    if k < s.len() {
        lemma_numeral_grows(s, k + 1);
        assert(s.take(k + 1).drop_last() =~= s.take(k));
        assert(s.take(k + 1).last() == s[k]);
        lemma_numeral_nonneg(s.take(k));
    } else {
        assert(s.take(k) =~= s);
        lemma_numeral_nonneg(s);
    }
}

proof fn lemma_numeral_nonneg(s: Seq<char>)
    requires
        forall|i: int| 0 <= i < s.len() ==> is_digit(#[trigger] s[i]),
    ensures
        0 <= numeral_value(s),
    decreases s.len(),
{
    if s.len() > 0 {
        assert(is_digit(s[s.len() - 1]));
        lemma_numeral_nonneg(s.drop_last());
    }
}

/// A small number that the API may write as text: its decimal digits,
/// refused when they are not all digits or the value exceeds 255.
pub fn str_as_u8(s: &str) -> (r: Option<u8>)
    ensures
        r matches Some(v) ==> is_numeral(s@) && numeral_value(s@) == v as int,
        r is None ==> !(is_numeral(s@) && numeral_value(s@) <= 255),
{
    let n = s.unicode_len();
    if n == 0 {
        return None;
    }
    let mut i: usize = 0;
    while i < n
        invariant
            n == s@.len(),
            i <= n,
            forall|k: int| 0 <= k < i ==> is_digit(#[trigger] s@[k]),
        decreases n - i,
    {
        let c = s.get_char(i);
        if !('0' <= c && c <= '9') {
            return None;
        }
        i = i + 1;
    }
    let mut acc: u32 = 0;
    let mut j: usize = 0;
    while j < n
        invariant
            n == s@.len(),
            j <= n,
            forall|k: int| 0 <= k < n ==> is_digit(#[trigger] s@[k]),
            acc as int == numeral_value(s@.take(j as int)),
            acc <= 255,
        decreases n - j,
    {
        let c = s.get_char(j);
        let d = (c as u32) - ('0' as u32);
        proof {
            assert(s@.take(j + 1).drop_last() =~= s@.take(j as int));
            assert(s@.take(j + 1).last() == s@[j as int]);
            assert(is_digit(s@[j as int]));
        }
        let next = acc * 10 + d;
        if next > 255 {
            proof {
                lemma_numeral_grows(s@, j + 1);
            }
            return None;
        }
        acc = next;
        j = j + 1;
    }
    assert(s@.take(n as int) =~= s@);
    Some(acc as u8)
}

impl StatusValue {
    /// A percentage written `<number>%`: the number, with `%` as suffix;
    /// refused when the text does not end with `%`.
    pub fn from_percent_text(s: &str) -> (r: Option<StatusValue>)
        ensures
            r is Some <==> (s@.len() > 0 && s@.last() == '%'),
            r matches Some(v) ==> v.value@ + seq!['%'] == s@ && v.suffix == Some('%'),
    {
        let n = s.unicode_len();
        if n == 0 || s.get_char(n - 1) != '%' {
            return None;
        }
        let number = s.substring_char(0, n - 1);
        assert(number@ + seq!['%'] =~= s@);
        Some(StatusValue { value: number.to_owned(), suffix: Some('%') })
    }

    /// A plain number, written as the API wrote it.
    pub fn from_number_text(text: String) -> (r: StatusValue)
        ensures
            r.value == text && r.suffix is None,
    {
        StatusValue { value: text, suffix: None }
    }
}

} // verus!

verus! {

impl StatusValue {
    /// The value as displayed: the number followed by its suffix, if any.
    pub fn to_text(&self) -> (r: String)
        ensures
            r@ == match self.suffix {
                Some(c) => self.value@.push(c),
                None => self.value@,
            },
    {
        let mut s = self.value.clone();
        match self.suffix {
            Some(c) => crate::text::push_char(&mut s, c),
            None => {},
        }
        s
    }
}

} // verus!
