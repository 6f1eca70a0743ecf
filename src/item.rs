//! Item search and item detail lookups: parameters, their encoding, and
//! the builder that accumulates them.

use vstd::prelude::*;

use crate::error::{Error, InvalidQueryParameter};
use crate::kinds::ItemRarity;
use crate::laws::{
    all_set, distinct_keys, in_declared_order, lemma_all_set_once, lemma_all_set_present,
    lemma_declared_order, lemma_decimals_plain, lemma_nested_full_round_trip,
    lemma_set_fields_once, lemma_unset_fields_omitted, omits_unset, pairs_carry_values,
    set_fields_once, parse_entries, plain_fields, round_trips,
};
use crate::query::{
    fields_view, join_entries, nested, nested_value, pairs_view, present, present_pairs, rarity_field,
    rarity_value, text_value, u8_field, u8_value, word_type_field, word_type_value, FieldView,
    WordType,
};
use crate::request::Request;
use crate::text::{push_char, push_text};
use crate::url::{law_encoded_name_decodes, percent_decode, url_encode, url_encoded};

verus! {

/// Filters of an item search, encoded as `q=minLevel:...,maxLevel:...,rarity:...`.
#[derive(Debug, Clone)]
pub struct Query {
    pub min_level: Option<u8>,
    pub max_level: Option<u8>,
    pub rarity: Option<ItemRarity>,
}

impl Query {

    /// The declared fields, in order, with the values of those that are set.
    pub open spec fn spec_fields(&self) -> Seq<FieldView> {
        seq![
            ("minLevel"@, u8_value(self.min_level)),
            ("maxLevel"@, u8_value(self.max_level)),
            ("rarity"@, rarity_value(self.rarity)),
        ]
    }

    /// The declared fields, in order, with the values of those that are set.
    pub fn fields(&self) -> (r: Vec<(&'static str, Option<String>)>)
        ensures
            fields_view(r@) == self.spec_fields(),
    {
        let r = vec![
            ("minLevel", u8_field(self.min_level)),
            ("maxLevel", u8_field(self.max_level)),
            ("rarity", rarity_field(self.rarity)),
        ];
        assert(fields_view(r@) =~= self.spec_fields());
        r
    }

    /// No two fields share a key.
    pub proof fn lemma_distinct_keys(&self)
        ensures
            distinct_keys(self.spec_fields()),
    {
        reveal_strlit("minLevel");
        reveal_strlit("maxLevel");
        reveal_strlit("rarity");
        assert("minLevel"@[1] != "maxLevel"@[1]);
        assert("minLevel"@.len() != "rarity"@.len());
        assert("maxLevel"@.len() != "rarity"@.len());
    }

    /// The comma-joined `key:value` text of the set filters; `None` when
    /// no filter is set.
    pub fn to_query_value(&self) -> (r: Option<String>)
        ensures
            text_value(r) == nested_value(present(self.spec_fields())),
    {
        let f = self.fields();
        let e = present_pairs(&f);
        nested(&e)
    }
}

impl Default for Query {
    fn default() -> (r: Query)
        ensures
            r.min_level is None && r.max_level is None && r.rarity is None,
    {
        Query { min_level: None, max_level: None, rarity: None }
    }
}

/// The value of an optional filter block: absent when it is absent or has
/// no set filter.
pub open spec fn opt_nested_value(q: Option<Query>) -> Option<Seq<char>> {
    match q {
        Some(q) => nested_value(present(q.spec_fields())),
        None => None,
    }
}

/// An optional filter-block field.
pub fn opt_nested_field(q: &Option<Query>) -> (r: Option<String>)
    ensures
        text_value(r) == opt_nested_value(*q),
{
    match q {
        Some(q) => q.to_query_value(),
        None => None,
    }
}

/// Parameters of an item search or lookup. `item_name` and `item_id` go
/// into the URL by hand, the other fields are query pairs.
#[derive(Debug, Clone)]
pub struct ItemSearchParameter {
    pub item_name: String,
    pub item_id: String,
    pub limit: Option<u8>,
    pub word_type: Option<WordType>,
    pub query: Option<Query>,
}

impl ItemSearchParameter {

    /// The declared fields, in order, with the values of those that are set.
    pub open spec fn spec_fields(&self) -> Seq<FieldView> {
        seq![
            ("limit"@, u8_value(self.limit)),
            ("wordType"@, word_type_value(self.word_type)),
            ("q"@, opt_nested_value(self.query)),
        ]
    }

    /// The declared fields, in order, with the values of those that are set.
    pub fn fields(&self) -> (r: Vec<(&'static str, Option<String>)>)
        ensures
            fields_view(r@) == self.spec_fields(),
    {
        let r = vec![
            ("limit", u8_field(self.limit)),
            ("wordType", word_type_field(self.word_type)),
            ("q", opt_nested_field(&self.query)),
        ];
        assert(fields_view(r@) =~= self.spec_fields());
        r
    }

    /// No two fields share a key.
    pub proof fn lemma_distinct_keys(&self)
        ensures
            distinct_keys(self.spec_fields()),
    {
        reveal_strlit("limit");
        reveal_strlit("wordType");
        reveal_strlit("q");
        assert("limit"@.len() != "wordType"@.len());
        assert("limit"@.len() != "q"@.len());
        assert("wordType"@.len() != "q"@.len());
    }

    /// The query pairs of the set fields, in declared order.
    pub fn query_pairs(&self) -> (r: Vec<(String, String)>)
        ensures
            pairs_view(r@) == present(self.spec_fields()),
    {
        let f = self.fields();
        present_pairs(&f)
    }

    /// Nothing is set.
    pub open spec fn spec_is_default(&self) -> bool {
        &&& self.item_name@.len() == 0 && self.item_id@.len() == 0
        &&& self.limit is None && self.word_type is None && self.query is None
    }
}

impl Default for ItemSearchParameter {
    fn default() -> (r: ItemSearchParameter)
        ensures
            r.spec_is_default(),
    {
        ItemSearchParameter {
            item_name: String::new(),
            item_id: String::new(),
            limit: None,
            word_type: None,
            query: None,
        }
    }
}

/// Texts joined by commas.
pub open spec fn comma_joined(s: Seq<Seq<char>>) -> Seq<char>
    decreases s.len(),
{
    if s.len() == 0 {
        seq![]
    } else if s.len() == 1 {
        s[0]
    } else {
        comma_joined(s.drop_last()) + seq![','] + s.last()
    }
}

pub open spec fn texts_view(v: Seq<String>) -> Seq<Seq<char>> {
    v.map_values(|s: String| s@)
}

/// Joins texts with commas.
pub fn join_ids(ids: &Vec<String>) -> (r: String)
    ensures
        r@ == comma_joined(texts_view(ids@)),
{
    let mut out = String::new();
    let mut i: usize = 0;
    while i < ids.len()
        invariant
            i <= ids.len(),
            out@ == comma_joined(texts_view(ids@).take(i as int)),
        decreases ids.len() - i,
    {
        let ghost before = out@;
        if i > 0 {
            push_char(&mut out, ',');
        }
        push_text(&mut out, ids[i].as_str());
        proof {
            let v = texts_view(ids@);
            assert(v.take(i + 1).drop_last() =~= v.take(i as int));
            assert(v.take(i + 1).last() == v[i as int]);
            if i == 0 {
                assert(out@ =~= v[0]);
            } else {
                assert(out@ =~= before + seq![','] + v[i as int]);
            }
        }
        i = i + 1;
    }
    assert(texts_view(ids@).take(ids@.len() as int) =~= texts_view(ids@));
    out
}

/// Message of an item search without a name.
pub const NAME_REQUIRED: &'static str = "`itemName` must be specified.";

/// Message of a multiple-item lookup without ids.
pub const IDS_REQUIRED: &'static str = "`itemIds` must be specified. (use `id_iter()`)";

/// Builder of item searches and lookups. Setters store one field each;
/// nothing is checked until a request is made.
#[derive(Debug, Clone)]
pub struct ItemHandler {
    pub param: ItemSearchParameter,
}

/// The filters with one more set: a new block when there was none.
pub open spec fn with_filter(q: Option<Query>, f: spec_fn(Query) -> Query) -> Option<Query> {
    match q {
        Some(q) => Some(f(q)),
        None => Some(f(Query { min_level: None, max_level: None, rarity: None })),
    }
}

impl ItemHandler {
    /// A builder with nothing set.
    pub fn new() -> (r: ItemHandler)
        ensures
            r.param.spec_is_default(),
    {
        ItemHandler { param: ItemSearchParameter::default() }
    }

    /// The request of a search by name: the name is percent-encoded into
    /// the path by hand, and a search without a name is refused.
    pub fn search_request(&self) -> (r: Result<Request, Error>)
        ensures
            self.param.item_name@.len() > 0 <==> r is Ok,
            r matches Ok(q) ==> q.path@ == "/items?itemName="@ + url_encoded(self.param.item_name@)
                && q.query_view() == present(self.param.spec_fields()),
            r matches Err(e) ==> (e matches Error::InvalidQueryParameter(v) && v.path@ == "/items"@
                && v.message@ == NAME_REQUIRED@),
    {
        if self.param.item_name.as_str().is_empty() {
            return Err(
                Error::InvalidQueryParameter(
                    InvalidQueryParameter {
                        path: "/items".to_owned(),
                        message: NAME_REQUIRED.to_owned(),
                    },
                ),
            );
        }
        let mut path = "/items?itemName=".to_owned();
        let enc = url_encode(self.param.item_name.as_str());
        push_text(&mut path, enc.as_str());
        Ok(Request { path, query: self.param.query_pairs() })
    }

    /// The request of the details of one item.
    pub fn info_request(&self) -> (r: Request)
        ensures
            r.path@ == "/items/"@ + self.param.item_id@,
            r.query@.len() == 0,
    {
        let mut path = "/items/".to_owned();
        push_text(&mut path, self.param.item_id.as_str());
        Request { path, query: Vec::new() }
    }

    /// The request of the details of several items, named by their
    /// comma-joined ids; refused when no id is set.
    pub fn multi_info_request(&self) -> (r: Result<Request, Error>)
        ensures
            self.param.item_id@.len() > 0 <==> r is Ok,
            r matches Ok(q) ==> q.path@ == "/multi/items?itemIds="@ + self.param.item_id@
                && q.query@.len() == 0,
            r matches Err(e) ==> (e matches Error::InvalidQueryParameter(v) && v.path@
                == "/multi/items"@ && v.message@ == IDS_REQUIRED@),
    {
        if self.param.item_id.as_str().is_empty() {
            return Err(
                Error::InvalidQueryParameter(
                    InvalidQueryParameter {
                        path: "/multi/items".to_owned(),
                        message: IDS_REQUIRED.to_owned(),
                    },
                ),
            );
        }
        let mut path = "/multi/items?itemIds=".to_owned();
        push_text(&mut path, self.param.item_id.as_str());
        Ok(Request { path, query: Vec::new() })
    }

    /// Names the item by name.
    pub fn name(&mut self, name: &str) -> (r: &mut Self)
        ensures
            r.param == (ItemSearchParameter { item_name: r.param.item_name, ..old(self).param }),
            r.param.item_name@ == name@,
            *final(self) == *final(r),
    {
        self.param.item_name = name.to_owned();
        self
    }

    /// Names the item by id.
    pub fn id(&mut self, id: &str) -> (r: &mut Self)
        ensures
            r.param == (ItemSearchParameter { item_id: r.param.item_id, ..old(self).param }),
            r.param.item_id@ == id@,
            *final(self) == *final(r),
    {
        self.param.item_id = id.to_owned();
        self
    }

    /// Names several items by id, joined by commas.
    pub fn id_iter(&mut self, ids: &Vec<String>) -> (r: &mut Self)
        ensures
            r.param == (ItemSearchParameter { item_id: r.param.item_id, ..old(self).param }),
            r.param.item_id@ == comma_joined(texts_view(ids@)),
            *final(self) == *final(r),
    {
        self.param.item_id = join_ids(ids);
        self
    }

    /// Sets the maximum number of rows.
    pub fn limit(&mut self, limit: u8) -> (r: &mut Self)
        ensures
            r.param == (ItemSearchParameter { limit: Some(limit), ..old(self).param }),
            *final(self) == *final(r),
    {
        self.param.limit = Some(limit);
        self
    }

    /// Sets how the name is matched.
    pub fn word_type(&mut self, word_type: WordType) -> (r: &mut Self)
        ensures
            r.param == (ItemSearchParameter { word_type: Some(word_type), ..old(self).param }),
            *final(self) == *final(r),
    {
        self.param.word_type = Some(word_type);
        self
    }


    /// Sets the highest item level.
    pub fn max_level(&mut self, max_level: u8) -> (r: &mut Self)
        ensures
            r.param == (ItemSearchParameter {
                query: with_filter(old(self).param.query, |q: Query| Query { max_level: Some(max_level), ..q }),
                ..old(self).param
            }),
            *final(self) == *final(r),
    {
        let mut q = match &self.param.query {
            Some(q) => q.clone_filters(),
            None => Query::default(),
        };
        q.max_level = Some(max_level);
        self.param.query = Some(q);
        self
    }


    /// Sets the lowest item level.
    pub fn min_level(&mut self, min_level: u8) -> (r: &mut Self)
        ensures
            r.param == (ItemSearchParameter {
                query: with_filter(old(self).param.query, |q: Query| Query { min_level: Some(min_level), ..q }),
                ..old(self).param
            }),
            *final(self) == *final(r),
    {
        let mut q = match &self.param.query {
            Some(q) => q.clone_filters(),
            None => Query::default(),
        };
        q.min_level = Some(min_level);
        self.param.query = Some(q);
        self
    }


    /// Sets the item rarity.
    pub fn rarity(&mut self, rarity: ItemRarity) -> (r: &mut Self)
        ensures
            r.param == (ItemSearchParameter {
                query: with_filter(old(self).param.query, |q: Query| Query { rarity: Some(rarity), ..q }),
                ..old(self).param
            }),
            *final(self) == *final(r),
    {
        let mut q = match &self.param.query {
            Some(q) => q.clone_filters(),
            None => Query::default(),
        };
        q.rarity = Some(rarity);
        self.param.query = Some(q);
        self
    }

}


impl Query {
    /// A copy of the filters.
    pub fn clone_filters(&self) -> (r: Query)
        ensures
            r == *self,
    {
        Query { min_level: self.min_level, max_level: self.max_level, rarity: self.rarity }
    }
}

} // verus!

verus! {

/// Keys and set values of the filters hold no separator.
proof fn lemma_plain_filters(q: Query)
    ensures
        plain_fields(q.spec_fields()),
{
        reveal_strlit("minLevel");
        reveal_strlit("maxLevel");
        reveal_strlit("rarity");
        reveal_strlit("커먼");
        reveal_strlit("언커먼");
        reveal_strlit("레어");
        reveal_strlit("유니크");
        reveal_strlit("크로니클");
        reveal_strlit("레전더리");
        reveal_strlit("에픽");
        reveal_strlit("신화");
    lemma_decimals_plain();
}

/// Unset fields never appear in the encoding: a key has a pair exactly when
/// its field is set (the filters when present with a set filter), and
/// inside the joined filter value a key has an entry exactly when its
/// filter is set.
pub proof fn law_unset_fields_omitted(p: ItemSearchParameter)
    ensures
        omits_unset(p.spec_fields()),
        set_fields_once(p.spec_fields()),
        pairs_carry_values(p.spec_fields()),
        p.query matches Some(q) ==> omits_unset(q.spec_fields()),
        p.query matches Some(q) ==> set_fields_once(q.spec_fields()) && pairs_carry_values(q.spec_fields()),
{
    p.lemma_distinct_keys();
    lemma_unset_fields_omitted(p.spec_fields());
    lemma_set_fields_once(p.spec_fields());
    if let Some(q) = p.query {
        q.lemma_distinct_keys();
        lemma_unset_fields_omitted(q.spec_fields());
        lemma_set_fields_once(q.spec_fields());
    }
}

/// The pairs, and the entries of the joined filter value, follow the
/// declared order of their fields, whatever order they were set in.
pub proof fn law_declared_order(p: ItemSearchParameter)
    ensures
        in_declared_order(present(p.spec_fields()), p.spec_fields()),
        p.query matches Some(q) ==> in_declared_order(present(q.spec_fields()), q.spec_fields()),
{
    p.lemma_distinct_keys();
    lemma_declared_order(p.spec_fields());
    if let Some(q) = p.query {
        q.lemma_distinct_keys();
        lemma_declared_order(q.spec_fields());
    }
}

/// Round trip: the name percent-encoded into the path decodes back to the
/// name, and with every optional field set, each key appears once with
/// its value, and reading the joined filter value back gives each filter
/// once with its value.
pub proof fn law_round_trip(p: ItemSearchParameter, q: Query)
    requires
        p.limit is Some && p.word_type is Some && p.query == Some(q),
        q.min_level is Some && q.max_level is Some && q.rarity is Some,
    ensures
        round_trips(p.spec_fields()),
        round_trips(q.spec_fields()),
        p.spec_fields()[2].1 == Some(join_entries(present(q.spec_fields()))),
        parse_entries(join_entries(present(q.spec_fields()))) == present(q.spec_fields()),
        vstd::utf8::decode_utf8(percent_decode(url_encoded(p.item_name@))) == p.item_name@,
{
    law_encoded_name_decodes(p.item_name@);
    p.lemma_distinct_keys();
    q.lemma_distinct_keys();
    lemma_plain_filters(q);
    lemma_nested_full_round_trip(q.spec_fields());
    let fl = p.spec_fields();
    assert(all_set(fl));
    lemma_all_set_present(fl);
    lemma_all_set_once(fl);
}

} // verus!
