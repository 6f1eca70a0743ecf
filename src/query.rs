//! The query encoder.
//!
//! Every search parameter describes itself as an ordered list of fields: a
//! camelCase key and, when the field is set, its value as text. Only the set
//! fields become `key=value` pairs, in the declared order. A nested
//! sub-structure (sort columns, filters) is one field of its parent whose
//! value is its own set fields written `key:value` and joined by commas; it
//! is left out when none of its fields is set.

use vstd::prelude::*;

use crate::kinds::{rarity_text, ItemRarity};
use crate::text::{decimal, decimal_text, push_char, push_text};

verus! {

/// A declared field: its key and, when set, its value.
pub type FieldView = (Seq<char>, Option<Seq<char>>);

/// A `key=value` pair of the query, before URL encoding.
pub type PairView = (Seq<char>, Seq<char>);

pub open spec fn field_view(f: (&str, Option<String>)) -> FieldView {
    (
        f.0@,
        match f.1 {
            Some(v) => Some(v@),
            None => None,
        },
    )
}

pub open spec fn fields_view(v: Seq<(&str, Option<String>)>) -> Seq<FieldView> {
    v.map_values(|f: (&str, Option<String>)| field_view(f))
}

pub open spec fn pairs_view(v: Seq<(String, String)>) -> Seq<PairView> {
    v.map_values(|p: (String, String)| (p.0@, p.1@))
}

/// The pair of one field: one pair when it is set, none otherwise.
pub open spec fn field_pair(f: FieldView) -> Seq<PairView> {
    match f.1 {
        Some(v) => seq![(f.0, v)],
        None => seq![],
    }
}

/// The pairs of the set fields, in declared order.
pub open spec fn present(fl: Seq<FieldView>) -> Seq<PairView>
    decreases fl.len(),
{
    if fl.len() == 0 {
        seq![]
    } else {
        present(fl.drop_last()) + field_pair(fl.last())
    }
}

/// `key:value`
pub open spec fn entry_text(e: PairView) -> Seq<char> {
    e.0 + seq![':'] + e.1
}

/// The entries written `key:value` and joined by commas.
pub open spec fn join_entries(e: Seq<PairView>) -> Seq<char>
    decreases e.len(),
{
    if e.len() == 0 {
        seq![]
    } else if e.len() == 1 {
        entry_text(e[0])
    } else {
        join_entries(e.drop_last()) + seq![','] + entry_text(e.last())
    }
}

/// The value of a nested sub-structure: absent when it has no set field.
pub open spec fn nested_value(e: Seq<PairView>) -> Option<Seq<char>> {
    if e.len() == 0 {
        None
    } else {
        Some(join_entries(e))
    }
}

/// A field whose value is a number.
pub open spec fn number_value(o: Option<u64>) -> Option<Seq<char>> {
    match o {
        Some(n) => Some(decimal(n as nat)),
        None => None,
    }
}

/// `"true"` or `"false"`.
pub open spec fn bool_text(b: bool) -> Seq<char> {
    if b {
        seq!['t', 'r', 'u', 'e']
    } else {
        seq!['f', 'a', 'l', 's', 'e']
    }
}

pub open spec fn bool_value(o: Option<bool>) -> Option<Seq<char>> {
    match o {
        Some(b) => Some(bool_text(b)),
        None => None,
    }
}

pub open spec fn text_value(o: Option<String>) -> Option<Seq<char>> {
    match o {
        Some(s) => Some(s@),
        None => None,
    }
}

/// The pairs of the set fields of `fields`, in order.
pub fn present_pairs(fields: &Vec<(&'static str, Option<String>)>) -> (r: Vec<(String, String)>)
    ensures
        pairs_view(r@) == present(fields_view(fields@)),
{
    let mut out: Vec<(String, String)> = Vec::new();
    let mut i: usize = 0;
    while i < fields.len()
        invariant
            i <= fields.len(),
            pairs_view(out@) == present(fields_view(fields@).take(i as int)),
        decreases fields.len() - i,
    {
        let ghost before = out@;
        let key: &str = fields[i].0;
        match &fields[i].1 {
            Some(v) => {
                out.push((key.to_owned(), v.clone()));
            },
            None => {},
        }
        proof {
            let fv = fields_view(fields@);
            assert(fv.take(i + 1).drop_last() =~= fv.take(i as int));
            assert(fv.take(i + 1).last() == fv[i as int]);
            assert(pairs_view(out@) =~= pairs_view(before) + field_pair(fv[i as int]));
        }
        i = i + 1;
    }
    assert(fields_view(fields@).take(fields@.len() as int) =~= fields_view(fields@));
    out
}

/// The comma-joined `key:value` text of `entries`.
pub fn join_nested(entries: &Vec<(String, String)>) -> (r: String)
    ensures
        r@ == join_entries(pairs_view(entries@)),
{
    let mut out = String::new();
    let mut i: usize = 0;
    while i < entries.len()
        invariant
            i <= entries.len(),
            out@ == join_entries(pairs_view(entries@).take(i as int)),
        decreases entries.len() - i,
    {
        let ghost before = out@;
        if i > 0 {
            push_char(&mut out, ',');
        }
        push_text(&mut out, entries[i].0.as_str());
        push_char(&mut out, ':');
        push_text(&mut out, entries[i].1.as_str());
        proof {
            let ev = pairs_view(entries@);
            assert(ev.take(i + 1).drop_last() =~= ev.take(i as int));
            assert(ev.take(i + 1).last() == ev[i as int]);
            if i == 0 {
                assert(out@ =~= entry_text(ev[0]));
            } else {
                assert(out@ =~= before + seq![','] + entry_text(ev[i as int]));
            }
        }
        i = i + 1;
    }
    assert(pairs_view(entries@).take(entries@.len() as int) =~= pairs_view(entries@));
    out
}

/// The value of a nested sub-structure with the given entries.
pub fn nested(entries: &Vec<(String, String)>) -> (r: Option<String>)
    ensures
        text_value(r) == nested_value(pairs_view(entries@)),
{
    if entries.len() == 0 {
        None
    } else {
        Some(join_nested(entries))
    }
}

/// A number field.
pub fn number_field(o: Option<u64>) -> (r: Option<String>)
    ensures
        text_value(r) == number_value(o),
{
    match o {
        Some(n) => Some(decimal_text(n)),
        None => None,
    }
}

/// A boolean field.
pub fn bool_field(o: Option<bool>) -> (r: Option<String>)
    ensures
        text_value(r) == bool_value(o),
{
    match o {
        Some(b) => {
            let mut s = String::new();
            if b {
                push_char(&mut s, 't');
                push_char(&mut s, 'r');
                push_char(&mut s, 'u');
                push_char(&mut s, 'e');
            } else {
                push_char(&mut s, 'f');
                push_char(&mut s, 'a');
                push_char(&mut s, 'l');
                push_char(&mut s, 's');
                push_char(&mut s, 'e');
            }
            assert(s@ =~= bool_text(b));
            Some(s)
        },
        None => None,
    }
}

/// A text field.
pub fn text_field(o: &Option<String>) -> (r: Option<String>)
    ensures
        text_value(r) == text_value(*o),
{
    match o {
        Some(s) => Some(s.clone()),
        None => None,
    }
}

pub open spec fn u8_value(o: Option<u8>) -> Option<Seq<char>> {
    match o {
        Some(n) => Some(decimal(n as nat)),
        None => None,
    }
}

pub open spec fn u16_value(o: Option<u16>) -> Option<Seq<char>> {
    match o {
        Some(n) => Some(decimal(n as nat)),
        None => None,
    }
}

pub open spec fn rarity_value(o: Option<ItemRarity>) -> Option<Seq<char>> {
    match o {
        Some(r) => Some(rarity_text(r)),
        None => None,
    }
}

/// A small number field.
pub fn u8_field(o: Option<u8>) -> (r: Option<String>)
    ensures
        text_value(r) == u8_value(o),
{
    match o {
        Some(n) => Some(decimal_text(n as u64)),
        None => None,
    }
}

/// A number field.
pub fn u16_field(o: Option<u16>) -> (r: Option<String>)
    ensures
        text_value(r) == u16_value(o),
{
    match o {
        Some(n) => Some(decimal_text(n as u64)),
        None => None,
    }
}

/// A rarity field.
pub fn rarity_field(o: Option<ItemRarity>) -> (r: Option<String>)
    ensures
        text_value(r) == rarity_value(o),
{
    match o {
        Some(x) => Some(x.as_str().to_owned()),
        None => None,
    }
}

/// How a searched word is matched against names.
#[derive(Debug, Clone, Copy, PartialEq, Eq, Structural)]
pub enum WordType {
    Match,
    Front,
    Full,
}

pub open spec fn word_type_text(w: WordType) -> Seq<char> {
    match w {
        WordType::Match => "match"@,
        WordType::Front => "front"@,
        WordType::Full => "full"@,
    }
}

pub open spec fn word_type_value(o: Option<WordType>) -> Option<Seq<char>> {
    match o {
        Some(w) => Some(word_type_text(w)),
        None => None,
    }
}

impl WordType {
    /// The wire spelling: `match`, `front` or `full`.
    pub fn as_str(&self) -> (r: &'static str)
        ensures
            r@ == word_type_text(*self),
    {
        match self {
            WordType::Match => "match",
            WordType::Front => "front",
            WordType::Full => "full",
        }
    }
}

impl Default for WordType {
    fn default() -> (r: WordType)
        ensures
            r == WordType::Match,
    {
        WordType::Match
    }
}

/// A word-type field.
pub fn word_type_field(o: Option<WordType>) -> (r: Option<String>)
    ensures
        text_value(r) == word_type_value(o),
{
    match o {
        Some(w) => Some(w.as_str().to_owned()),
        None => None,
    }
}

} // verus!
