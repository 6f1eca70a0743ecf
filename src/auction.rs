//! Auction-house search: its parameters, their encoding, and the builder
//! that accumulates them.

use vstd::prelude::*;

use crate::error::{Error, InvalidQueryParameter};
use crate::kinds::ItemRarity;
use crate::laws::{
    all_set, distinct_keys, in_declared_order, lemma_all_set_once, lemma_all_set_present,
    lemma_declared_order, lemma_decimals_plain, lemma_nested_full_round_trip,
    lemma_set_fields_once, lemma_unset_fields_omitted, omits_unset, pairs_carry_values,
    set_fields_once, parse_entries, plain_fields, round_trips,
};
use crate::query::{
    bool_field, bool_value, fields_view, join_entries, nested, nested_value, pairs_view, present, present_pairs,
    rarity_field, rarity_value, text_value, u16_field, u16_value, u8_field, u8_value,
    word_type_field, word_type_value, FieldView, WordType,
};
use crate::request::Request;
use crate::text::push_text;
use crate::url::{law_encoded_name_decodes, percent_decode, url_encode, url_encoded};

verus! {

/// Direction of a sort column.
#[derive(Debug, Clone, Copy, PartialEq, Eq, Structural)]
pub enum SortOrder {
    Asc,
    Desc,
}

pub open spec fn sort_order_text(o: SortOrder) -> Seq<char> {
    match o {
        SortOrder::Asc => "asc"@,
        SortOrder::Desc => "desc"@,
    }
}

pub open spec fn sort_value(o: Option<SortOrder>) -> Option<Seq<char>> {
    match o {
        Some(x) => Some(sort_order_text(x)),
        None => None,
    }
}

impl SortOrder {
    /// `asc` or `desc`.
    pub fn as_str(&self) -> (r: &'static str)
        ensures
            r@ == sort_order_text(*self),
    {
        match self {
            SortOrder::Asc => "asc",
            SortOrder::Desc => "desc",
        }
    }
}

/// A sort-order field.
pub fn sort_field(o: Option<SortOrder>) -> (r: Option<String>)
    ensures
        text_value(r) == sort_value(o),
{
    match o {
        Some(x) => Some(x.as_str().to_owned()),
        None => None,
    }
}

/// Sort columns of an auction search, encoded as `sort=unitPrice:asc,...`.
#[derive(Debug, Clone)]
pub struct Sort {
    pub unit_price: Option<SortOrder>,
    pub reinforce: Option<SortOrder>,
    pub auction_no: Option<SortOrder>,
}

impl Sort {

    /// The declared fields, in order, with the values of those that are set.
    pub open spec fn spec_fields(&self) -> Seq<FieldView> {
        seq![
            ("unitPrice"@, sort_value(self.unit_price)),
            ("reinforce"@, sort_value(self.reinforce)),
            ("auctionNo"@, sort_value(self.auction_no)),
        ]
    }

    /// The declared fields, in order, with the values of those that are set.
    pub fn fields(&self) -> (r: Vec<(&'static str, Option<String>)>)
        ensures
            fields_view(r@) == self.spec_fields(),
    {
        let r = vec![
            ("unitPrice", sort_field(self.unit_price)),
            ("reinforce", sort_field(self.reinforce)),
            ("auctionNo", sort_field(self.auction_no)),
        ];
        assert(fields_view(r@) =~= self.spec_fields());
        r
    }

    /// No two fields share a key.
    pub proof fn lemma_distinct_keys(&self)
        ensures
            distinct_keys(self.spec_fields()),
    {
        reveal_strlit("unitPrice");
        reveal_strlit("reinforce");
        reveal_strlit("auctionNo");
        assert("unitPrice"@[0] != "reinforce"@[0]);
        assert("unitPrice"@[0] != "auctionNo"@[0]);
        assert("reinforce"@[0] != "auctionNo"@[0]);
    }

    /// The comma-joined `key:value` text of the set columns; `None` when
    /// no column is set.
    pub fn to_query_value(&self) -> (r: Option<String>)
        ensures
            text_value(r) == nested_value(present(self.spec_fields())),
    {
        let f = self.fields();
        let e = present_pairs(&f);
        nested(&e)
    }
}

impl Default for Sort {
    fn default() -> (r: Sort)
        ensures
            r.unit_price is None && r.reinforce is None && r.auction_no is None,
    {
        Sort { unit_price: None, reinforce: None, auction_no: None }
    }
}

/// Filters of an auction search, encoded as `q=rarity:...,minLevel:...`.
#[derive(Debug, Clone)]
pub struct Query {
    pub min_level: Option<u8>,
    pub max_level: Option<u8>,
    pub rarity: Option<ItemRarity>,
    pub min_reinforce: Option<u8>,
    pub max_reinforce: Option<u8>,
    pub min_refine: Option<u8>,
    pub max_refine: Option<u8>,
    pub min_adventure_fame: Option<u16>,
    pub max_adventure_fame: Option<u16>,
}

impl Query {

    /// The declared fields, in order, with the values of those that are set.
    pub open spec fn spec_fields(&self) -> Seq<FieldView> {
        seq![
            ("rarity"@, rarity_value(self.rarity)),
            ("minLevel"@, u8_value(self.min_level)),
            ("minReinforce"@, u8_value(self.min_reinforce)),
            ("minRefine"@, u8_value(self.min_refine)),
            ("minAdventureFame"@, u16_value(self.min_adventure_fame)),
            ("maxLevel"@, u8_value(self.max_level)),
            ("maxReinforce"@, u8_value(self.max_reinforce)),
            ("maxRefine"@, u8_value(self.max_refine)),
            ("maxAdventureFame"@, u16_value(self.max_adventure_fame)),
        ]
    }

    /// The declared fields, in order, with the values of those that are set.
    pub fn fields(&self) -> (r: Vec<(&'static str, Option<String>)>)
        ensures
            fields_view(r@) == self.spec_fields(),
    {
        let r = vec![
            ("rarity", rarity_field(self.rarity)),
            ("minLevel", u8_field(self.min_level)),
            ("minReinforce", u8_field(self.min_reinforce)),
            ("minRefine", u8_field(self.min_refine)),
            ("minAdventureFame", u16_field(self.min_adventure_fame)),
            ("maxLevel", u8_field(self.max_level)),
            ("maxReinforce", u8_field(self.max_reinforce)),
            ("maxRefine", u8_field(self.max_refine)),
            ("maxAdventureFame", u16_field(self.max_adventure_fame)),
        ];
        assert(fields_view(r@) =~= self.spec_fields());
        r
    }

    /// No two fields share a key.
    pub proof fn lemma_distinct_keys(&self)
        ensures
            distinct_keys(self.spec_fields()),
    {
        reveal_strlit("rarity");
        reveal_strlit("minLevel");
        reveal_strlit("minReinforce");
        reveal_strlit("minRefine");
        reveal_strlit("minAdventureFame");
        reveal_strlit("maxLevel");
        reveal_strlit("maxReinforce");
        reveal_strlit("maxRefine");
        reveal_strlit("maxAdventureFame");
        assert("rarity"@.len() != "minLevel"@.len());
        assert("rarity"@.len() != "minReinforce"@.len());
        assert("rarity"@.len() != "minRefine"@.len());
        assert("rarity"@.len() != "minAdventureFame"@.len());
        assert("rarity"@.len() != "maxLevel"@.len());
        assert("rarity"@.len() != "maxReinforce"@.len());
        assert("rarity"@.len() != "maxRefine"@.len());
        assert("rarity"@.len() != "maxAdventureFame"@.len());
        assert("minLevel"@.len() != "minReinforce"@.len());
        assert("minLevel"@.len() != "minRefine"@.len());
        assert("minLevel"@.len() != "minAdventureFame"@.len());
        assert("minLevel"@[1] != "maxLevel"@[1]);
        assert("minLevel"@.len() != "maxReinforce"@.len());
        assert("minLevel"@.len() != "maxRefine"@.len());
        assert("minLevel"@.len() != "maxAdventureFame"@.len());
        assert("minReinforce"@.len() != "minRefine"@.len());
        assert("minReinforce"@.len() != "minAdventureFame"@.len());
        assert("minReinforce"@.len() != "maxLevel"@.len());
        assert("minReinforce"@[1] != "maxReinforce"@[1]);
        assert("minReinforce"@.len() != "maxRefine"@.len());
        assert("minReinforce"@.len() != "maxAdventureFame"@.len());
        assert("minRefine"@.len() != "minAdventureFame"@.len());
        assert("minRefine"@.len() != "maxLevel"@.len());
        assert("minRefine"@.len() != "maxReinforce"@.len());
        assert("minRefine"@[1] != "maxRefine"@[1]);
        assert("minRefine"@.len() != "maxAdventureFame"@.len());
        assert("minAdventureFame"@.len() != "maxLevel"@.len());
        assert("minAdventureFame"@.len() != "maxReinforce"@.len());
        assert("minAdventureFame"@.len() != "maxRefine"@.len());
        assert("minAdventureFame"@[1] != "maxAdventureFame"@[1]);
        assert("maxLevel"@.len() != "maxReinforce"@.len());
        assert("maxLevel"@.len() != "maxRefine"@.len());
        assert("maxLevel"@.len() != "maxAdventureFame"@.len());
        assert("maxReinforce"@.len() != "maxRefine"@.len());
        assert("maxReinforce"@.len() != "maxAdventureFame"@.len());
        assert("maxRefine"@.len() != "maxAdventureFame"@.len());
    }

    /// The comma-joined `key:value` text of the set filters; `None` when
    /// no filter is set.
    pub fn to_query_value(&self) -> (r: Option<String>)
        ensures
            text_value(r) == nested_value(present(self.spec_fields())),
    {
        let f = self.fields();
        let e = present_pairs(&f);
        nested(&e)
    }
}

impl Default for Query {
    fn default() -> (r: Query)
        ensures
            r.min_level is None && r.max_level is None && r.rarity is None,
            r.min_reinforce is None && r.max_reinforce is None,
            r.min_refine is None && r.max_refine is None,
            r.min_adventure_fame is None && r.max_adventure_fame is None,
    {
        Query {
            min_level: None,
            max_level: None,
            rarity: None,
            min_reinforce: None,
            max_reinforce: None,
            min_refine: None,
            max_refine: None,
            min_adventure_fame: None,
            max_adventure_fame: None,
        }
    }
}

/// Parameters of an auction search. The item is named by `item_name` or,
/// when that is empty, by `item_id`; either goes into the URL
/// percent-encoded by hand, the other fields are query pairs.
#[derive(Debug, Clone)]
pub struct AuctionSearchParameter {
    pub item_name: String,
    pub item_id: String,
    pub limit: Option<u16>,
    pub sort: Sort,
    pub word_type: Option<WordType>,
    pub word_short: Option<bool>,
    pub query: Query,
}

impl AuctionSearchParameter {

    /// The declared fields, in order, with the values of those that are set.
    pub open spec fn spec_fields(&self) -> Seq<FieldView> {
        seq![
            ("limit"@, u16_value(self.limit)),
            ("sort"@, nested_value(present(self.sort.spec_fields()))),
            ("wordType"@, word_type_value(self.word_type)),
            ("wordShort"@, bool_value(self.word_short)),
            ("q"@, nested_value(present(self.query.spec_fields()))),
        ]
    }

    /// The declared fields, in order, with the values of those that are set.
    pub fn fields(&self) -> (r: Vec<(&'static str, Option<String>)>)
        ensures
            fields_view(r@) == self.spec_fields(),
    {
        let r = vec![
            ("limit", u16_field(self.limit)),
            ("sort", self.sort.to_query_value()),
            ("wordType", word_type_field(self.word_type)),
            ("wordShort", bool_field(self.word_short)),
            ("q", self.query.to_query_value()),
        ];
        assert(fields_view(r@) =~= self.spec_fields());
        r
    }

    /// No two fields share a key.
    pub proof fn lemma_distinct_keys(&self)
        ensures
            distinct_keys(self.spec_fields()),
    {
        reveal_strlit("limit");
        reveal_strlit("sort");
        reveal_strlit("wordType");
        reveal_strlit("wordShort");
        reveal_strlit("q");
        assert("limit"@.len() != "sort"@.len());
        assert("limit"@.len() != "wordType"@.len());
        assert("limit"@.len() != "wordShort"@.len());
        assert("limit"@.len() != "q"@.len());
        assert("sort"@.len() != "wordType"@.len());
        assert("sort"@.len() != "wordShort"@.len());
        assert("sort"@.len() != "q"@.len());
        assert("wordType"@.len() != "wordShort"@.len());
        assert("wordType"@.len() != "q"@.len());
        assert("wordShort"@.len() != "q"@.len());
    }

    /// The query pairs of the set fields, in declared order.
    pub fn query_pairs(&self) -> (r: Vec<(String, String)>)
        ensures
            pairs_view(r@) == present(self.spec_fields()),
    {
        let f = self.fields();
        present_pairs(&f)
    }

    pub open spec fn to_sold_param_spec(&self) -> SoldAuctionParam {
        SoldAuctionParam { limit: self.limit, word_type: self.word_type, word_short: self.word_short }
    }

    /// The parameters that a search of sold items takes.
    pub fn to_sold_param(&self) -> (r: SoldAuctionParam)
        ensures
            r == self.to_sold_param_spec(),
    {
        SoldAuctionParam { limit: self.limit, word_type: self.word_type, word_short: self.word_short }
    }
}

impl AuctionSearchParameter {
    /// Nothing is set.
    pub open spec fn spec_is_default(&self) -> bool {
        &&& self.item_name@.len() == 0 && self.item_id@.len() == 0
        &&& self.limit is None && self.word_type is None && self.word_short is None
        &&& self.sort.unit_price is None && self.sort.reinforce is None && self.sort.auction_no is None
        &&& self.query.min_level is None && self.query.max_level is None && self.query.rarity is None
        &&& self.query.min_reinforce is None && self.query.max_reinforce is None
        &&& self.query.min_refine is None && self.query.max_refine is None
        &&& self.query.min_adventure_fame is None && self.query.max_adventure_fame is None
    }
}

impl Default for AuctionSearchParameter {
    fn default() -> (r: AuctionSearchParameter)
        ensures
            r.spec_is_default(),
    {
        AuctionSearchParameter {
            item_name: String::new(),
            item_id: String::new(),
            limit: None,
            sort: Sort::default(),
            word_type: None,
            word_short: None,
            query: Query::default(),
        }
    }
}

/// Parameters of a search of sold items.
#[derive(Debug, Clone)]
pub struct SoldAuctionParam {
    pub limit: Option<u16>,
    pub word_type: Option<WordType>,
    pub word_short: Option<bool>,
}

impl SoldAuctionParam {

    /// The declared fields, in order, with the values of those that are set.
    pub open spec fn spec_fields(&self) -> Seq<FieldView> {
        seq![
            ("limit"@, u16_value(self.limit)),
            ("wordType"@, word_type_value(self.word_type)),
            ("wordShort"@, bool_value(self.word_short)),
        ]
    }

    /// The declared fields, in order, with the values of those that are set.
    pub fn fields(&self) -> (r: Vec<(&'static str, Option<String>)>)
        ensures
            fields_view(r@) == self.spec_fields(),
    {
        let r = vec![
            ("limit", u16_field(self.limit)),
            ("wordType", word_type_field(self.word_type)),
            ("wordShort", bool_field(self.word_short)),
        ];
        assert(fields_view(r@) =~= self.spec_fields());
        r
    }

    /// No two fields share a key.
    pub proof fn lemma_distinct_keys(&self)
        ensures
            distinct_keys(self.spec_fields()),
    {
        reveal_strlit("limit");
        reveal_strlit("wordType");
        reveal_strlit("wordShort");
        assert("limit"@.len() != "wordType"@.len());
        assert("limit"@.len() != "wordShort"@.len());
        assert("wordType"@.len() != "wordShort"@.len());
    }

    /// The query pairs of the set fields, in declared order.
    pub fn query_pairs(&self) -> (r: Vec<(String, String)>)
        ensures
            pairs_view(r@) == present(self.spec_fields()),
    {
        let f = self.fields();
        present_pairs(&f)
    }
}

/// Message of a search that names no item.
pub const ITEM_REQUIRED: &'static str = "`itemName` or `itemId` must be specified.";

/// Where a search of `path` goes: the item name percent-encoded by hand,
/// or else the item id percent-encoded by hand; nowhere when neither is set.
pub open spec fn item_url(p: AuctionSearchParameter, path: Seq<char>) -> Option<Seq<char>> {
    if p.item_name@.len() > 0 {
        Some(path + "?itemName="@ + url_encoded(p.item_name@))
    } else if p.item_id@.len() > 0 {
        Some(path + "?itemId="@ + url_encoded(p.item_id@))
    } else {
        None
    }
}

/// Builder of auction searches. Setters store one field each; nothing is
/// checked until a request is made.
#[derive(Debug, Clone)]
pub struct AuctionHandler {
    pub param: AuctionSearchParameter,
}

impl AuctionHandler {
    /// A builder with nothing set.
    pub fn new() -> (r: AuctionHandler)
        ensures
            r.param.spec_is_default(),
    {
        AuctionHandler { param: AuctionSearchParameter::default() }
    }

    /// The path of a search of `path` with the item part of its query.
    pub fn make_url(&self, path: &str) -> (r: Result<String, Error>)
        ensures
            r matches Ok(u) ==> item_url(self.param, path@) == Some(u@),
            r is Err <==> item_url(self.param, path@) is None,
            r matches Err(e) ==> (e matches Error::InvalidQueryParameter(q) && q.path@ == path@
                && q.message@ == ITEM_REQUIRED@),
    {
        if !self.param.item_name.as_str().is_empty() {
            let mut u = path.to_owned();
            push_text(&mut u, "?itemName=");
            let enc = url_encode(self.param.item_name.as_str());
            push_text(&mut u, enc.as_str());
            Ok(u)
        } else if !self.param.item_id.as_str().is_empty() {
            let mut u = path.to_owned();
            push_text(&mut u, "?itemId=");
            let enc = url_encode(self.param.item_id.as_str());
            push_text(&mut u, enc.as_str());
            Ok(u)
        } else {
            Err(
                Error::InvalidQueryParameter(
                    InvalidQueryParameter { path: path.to_owned(), message: ITEM_REQUIRED.to_owned() },
                ),
            )
        }
    }

    /// The request of a search of items on sale.
    pub fn search_request(&self) -> (r: Result<Request, Error>)
        ensures
            r matches Ok(q) ==> item_url(self.param, "/auction"@) == Some(q.path@) && q.query_view()
                == present(self.param.spec_fields()),
            r is Err <==> item_url(self.param, "/auction"@) is None,
            r matches Err(e) ==> (e matches Error::InvalidQueryParameter(v) && v.path@ == "/auction"@
                && v.message@ == ITEM_REQUIRED@),
    {
        let path = self.make_url("/auction")?;
        Ok(Request { path, query: self.param.query_pairs() })
    }

    /// The request of a search of sold items.
    pub fn sold_request(&self) -> (r: Result<Request, Error>)
        ensures
            r matches Ok(q) ==> item_url(self.param, "/auction-sold"@) == Some(q.path@)
                && q.query_view() == present(self.param.to_sold_param_spec().spec_fields()),
            r is Err <==> item_url(self.param, "/auction-sold"@) is None,
            r matches Err(e) ==> (e matches Error::InvalidQueryParameter(v) && v.path@
                == "/auction-sold"@ && v.message@ == ITEM_REQUIRED@),
    {
        let path = self.make_url("/auction-sold")?;
        Ok(Request { path, query: self.param.to_sold_param().query_pairs() })
    }

    /// Replaces all parameters.
    pub fn param(&mut self, param: AuctionSearchParameter) -> (r: &mut Self)
        ensures
            r.param == param,
            *final(self) == *final(r),
    {
        self.param = param;
        self
    }

    /// Replaces the sort columns.
    pub fn sort(&mut self, sort: Sort) -> (r: &mut Self)
        ensures
            r.param == (AuctionSearchParameter { sort: sort, ..old(self).param }),
            *final(self) == *final(r),
    {
        self.param.sort = sort;
        self
    }

    /// Replaces the filters.
    pub fn query(&mut self, query: Query) -> (r: &mut Self)
        ensures
            r.param == (AuctionSearchParameter { query: query, ..old(self).param }),
            *final(self) == *final(r),
    {
        self.param.query = query;
        self
    }

    /// Names the item by id.
    pub fn id(&mut self, item_id: &str) -> (r: &mut Self)
        ensures
            r.param == (AuctionSearchParameter { item_id: r.param.item_id, ..old(self).param }),
            r.param.item_id@ == item_id@,
            *final(self) == *final(r),
    {
        self.param.item_id = item_id.to_owned();
        self
    }

    /// Names the item by name.
    pub fn name(&mut self, item_name: &str) -> (r: &mut Self)
        ensures
            r.param == (AuctionSearchParameter { item_name: r.param.item_name, ..old(self).param }),
            r.param.item_name@ == item_name@,
            *final(self) == *final(r),
    {
        self.param.item_name = item_name.to_owned();
        self
    }

    /// Sets the maximum number of rows.
    pub fn limit(&mut self, limit: u16) -> (r: &mut Self)
        ensures
            r.param == (AuctionSearchParameter { limit: Some(limit), ..old(self).param }),
            *final(self) == *final(r),
    {
        self.param.limit = Some(limit);
        self
    }

    /// Sorts by reinforcement.
    pub fn sort_by_reinforce(&mut self, sort: SortOrder) -> (r: &mut Self)
        ensures
            r.param == (AuctionSearchParameter { sort: Sort { reinforce: Some(sort), ..old(self).param.sort }, ..old(self).param }),
            *final(self) == *final(r),
    {
        self.param.sort.reinforce = Some(sort);
        self
    }

    /// Sorts by unit price.
    pub fn sort_by_unit_price(&mut self, sort: SortOrder) -> (r: &mut Self)
        ensures
            r.param == (AuctionSearchParameter { sort: Sort { unit_price: Some(sort), ..old(self).param.sort }, ..old(self).param }),
            *final(self) == *final(r),
    {
        self.param.sort.unit_price = Some(sort);
        self
    }

    /// Sorts by auction number.
    pub fn sort_by_auction_no(&mut self, sort: SortOrder) -> (r: &mut Self)
        ensures
            r.param == (AuctionSearchParameter { sort: Sort { auction_no: Some(sort), ..old(self).param.sort }, ..old(self).param }),
            *final(self) == *final(r),
    {
        self.param.sort.auction_no = Some(sort);
        self
    }

    /// Sets how the item name is matched.
    pub fn word_type(&mut self, word_type: WordType) -> (r: &mut Self)
        ensures
            r.param == (AuctionSearchParameter { word_type: Some(word_type), ..old(self).param }),
            *final(self) == *final(r),
    {
        self.param.word_type = Some(word_type);
        self
    }

    /// Sets whether a short word is allowed.
    pub fn word_short(&mut self, word_short: bool) -> (r: &mut Self)
        ensures
            r.param == (AuctionSearchParameter { word_short: Some(word_short), ..old(self).param }),
            *final(self) == *final(r),
    {
        self.param.word_short = Some(word_short);
        self
    }

    /// Sets the lowest item level.
    pub fn min_level(&mut self, min_level: u8) -> (r: &mut Self)
        ensures
            r.param == (AuctionSearchParameter { query: Query { min_level: Some(min_level), ..old(self).param.query }, ..old(self).param }),
            *final(self) == *final(r),
    {
        self.param.query.min_level = Some(min_level);
        self
    }

    /// Sets the highest item level.
    pub fn max_level(&mut self, max_level: u8) -> (r: &mut Self)
        ensures
            r.param == (AuctionSearchParameter { query: Query { max_level: Some(max_level), ..old(self).param.query }, ..old(self).param }),
            *final(self) == *final(r),
    {
        self.param.query.max_level = Some(max_level);
        self
    }

    /// Sets the item rarity.
    pub fn rarity(&mut self, rarity: ItemRarity) -> (r: &mut Self)
        ensures
            r.param == (AuctionSearchParameter { query: Query { rarity: Some(rarity), ..old(self).param.query }, ..old(self).param }),
            *final(self) == *final(r),
    {
        self.param.query.rarity = Some(rarity);
        self
    }

    /// Sets the lowest reinforcement.
    pub fn min_reinforce(&mut self, min_reinforce: u8) -> (r: &mut Self)
        ensures
            r.param == (AuctionSearchParameter { query: Query { min_reinforce: Some(min_reinforce), ..old(self).param.query }, ..old(self).param }),
            *final(self) == *final(r),
    {
        self.param.query.min_reinforce = Some(min_reinforce);
        self
    }

    /// Sets the highest reinforcement.
    pub fn max_reinforce(&mut self, max_reinforce: u8) -> (r: &mut Self)
        ensures
            r.param == (AuctionSearchParameter { query: Query { max_reinforce: Some(max_reinforce), ..old(self).param.query }, ..old(self).param }),
            *final(self) == *final(r),
    {
        self.param.query.max_reinforce = Some(max_reinforce);
        self
    }

    /// Sets the lowest refinement.
    pub fn min_refine(&mut self, min_refine: u8) -> (r: &mut Self)
        ensures
            r.param == (AuctionSearchParameter { query: Query { min_refine: Some(min_refine), ..old(self).param.query }, ..old(self).param }),
            *final(self) == *final(r),
    {
        self.param.query.min_refine = Some(min_refine);
        self
    }

    /// Sets the highest refinement.
    pub fn max_refine(&mut self, max_refine: u8) -> (r: &mut Self)
        ensures
            r.param == (AuctionSearchParameter { query: Query { max_refine: Some(max_refine), ..old(self).param.query }, ..old(self).param }),
            *final(self) == *final(r),
    {
        self.param.query.max_refine = Some(max_refine);
        self
    }

    /// Sets the lowest adventure fame.
    pub fn min_adventure_fame(&mut self, min_adventure_fame: u16) -> (r: &mut Self)
        ensures
            r.param == (AuctionSearchParameter { query: Query { min_adventure_fame: Some(min_adventure_fame), ..old(self).param.query }, ..old(self).param }),
            *final(self) == *final(r),
    {
        self.param.query.min_adventure_fame = Some(min_adventure_fame);
        self
    }

    /// Sets the highest adventure fame.
    pub fn max_adventure_fame(&mut self, max_adventure_fame: u16) -> (r: &mut Self)
        ensures
            r.param == (AuctionSearchParameter { query: Query { max_adventure_fame: Some(max_adventure_fame), ..old(self).param.query }, ..old(self).param }),
            *final(self) == *final(r),
    {
        self.param.query.max_adventure_fame = Some(max_adventure_fame);
        self
    }

    /// Sets the lowest and highest item level.
    pub fn level(&mut self, min: u8, max: u8) -> (r: &mut Self)
        ensures
            r.param == (AuctionSearchParameter {
                query: Query { min_level: Some(min), max_level: Some(max), ..old(self).param.query },
                ..old(self).param
            }),
            *final(self) == *final(r),
    {
        self.param.query.min_level = Some(min);
        self.param.query.max_level = Some(max);
        self
    }

    /// Sets the lowest and highest reinforcement.
    pub fn reinforce(&mut self, min: u8, max: u8) -> (r: &mut Self)
        ensures
            r.param == (AuctionSearchParameter {
                query: Query { min_reinforce: Some(min), max_reinforce: Some(max), ..old(self).param.query },
                ..old(self).param
            }),
            *final(self) == *final(r),
    {
        self.param.query.min_reinforce = Some(min);
        self.param.query.max_reinforce = Some(max);
        self
    }

    /// Sets the lowest and highest refinement.
    pub fn refine(&mut self, min: u8, max: u8) -> (r: &mut Self)
        ensures
            r.param == (AuctionSearchParameter {
                query: Query { min_refine: Some(min), max_refine: Some(max), ..old(self).param.query },
                ..old(self).param
            }),
            *final(self) == *final(r),
    {
        self.param.query.min_refine = Some(min);
        self.param.query.max_refine = Some(max);
        self
    }

    /// Sets the lowest and highest adventure fame.
    pub fn adventure_fame(&mut self, min: u16, max: u16) -> (r: &mut Self)
        ensures
            r.param == (AuctionSearchParameter {
                query: Query { min_adventure_fame: Some(min), max_adventure_fame: Some(max), ..old(self).param.query },
                ..old(self).param
            }),
            *final(self) == *final(r),
    {
        self.param.query.min_adventure_fame = Some(min);
        self.param.query.max_adventure_fame = Some(max);
        self
    }
}

} // verus!

verus! {

/// Keys and set values of the sort columns and filters hold no separator.
proof fn lemma_plain_nested(p: AuctionSearchParameter)
    ensures
        plain_fields(p.sort.spec_fields()),
        plain_fields(p.query.spec_fields()),
{
        reveal_strlit("unitPrice");
        reveal_strlit("reinforce");
        reveal_strlit("auctionNo");
        reveal_strlit("rarity");
        reveal_strlit("minLevel");
        reveal_strlit("minReinforce");
        reveal_strlit("minRefine");
        reveal_strlit("minAdventureFame");
        reveal_strlit("maxLevel");
        reveal_strlit("maxReinforce");
        reveal_strlit("maxRefine");
        reveal_strlit("maxAdventureFame");
        reveal_strlit("asc");
        reveal_strlit("desc");
        reveal_strlit("커먼");
        reveal_strlit("언커먼");
        reveal_strlit("레어");
        reveal_strlit("유니크");
        reveal_strlit("크로니클");
        reveal_strlit("레전더리");
        reveal_strlit("에픽");
        reveal_strlit("신화");
    lemma_decimals_plain();
}

/// Unset fields never appear in the encoding: a top-level key has a pair
/// exactly when its field is set (the sort and the filters when one of
/// their fields is), and inside the joined sort and filter values a key
/// has an entry exactly when its field is set.
pub proof fn law_unset_fields_omitted(p: AuctionSearchParameter)
    ensures
        omits_unset(p.spec_fields()),
        set_fields_once(p.spec_fields()),
        pairs_carry_values(p.spec_fields()),
        omits_unset(p.sort.spec_fields()),
        set_fields_once(p.sort.spec_fields()),
        pairs_carry_values(p.sort.spec_fields()),
        omits_unset(p.query.spec_fields()),
        set_fields_once(p.query.spec_fields()),
        pairs_carry_values(p.query.spec_fields()),
        omits_unset(p.to_sold_param_spec().spec_fields()),
        set_fields_once(p.to_sold_param_spec().spec_fields()),
        pairs_carry_values(p.to_sold_param_spec().spec_fields()),
{
    p.lemma_distinct_keys();
    p.sort.lemma_distinct_keys();
    p.query.lemma_distinct_keys();
    p.to_sold_param_spec().lemma_distinct_keys();
    lemma_unset_fields_omitted(p.to_sold_param_spec().spec_fields());
    lemma_set_fields_once(p.to_sold_param_spec().spec_fields());
    lemma_unset_fields_omitted(p.spec_fields());
    lemma_set_fields_once(p.spec_fields());
    lemma_unset_fields_omitted(p.sort.spec_fields());
    lemma_set_fields_once(p.sort.spec_fields());
    lemma_unset_fields_omitted(p.query.spec_fields());
    lemma_set_fields_once(p.query.spec_fields());
}

/// The pairs, and the entries of the joined sort and filter values, follow
/// the declared order of their fields; the encoding depends on the values
/// set, not on the order of the setter calls.
pub proof fn law_declared_order(p: AuctionSearchParameter)
    ensures
        in_declared_order(present(p.spec_fields()), p.spec_fields()),
        in_declared_order(present(p.sort.spec_fields()), p.sort.spec_fields()),
        in_declared_order(present(p.query.spec_fields()), p.query.spec_fields()),
        in_declared_order(
            present(p.to_sold_param_spec().spec_fields()),
            p.to_sold_param_spec().spec_fields(),
        ),
{
    p.to_sold_param_spec().lemma_distinct_keys();
    lemma_declared_order(p.to_sold_param_spec().spec_fields());
    p.lemma_distinct_keys();
    p.sort.lemma_distinct_keys();
    p.query.lemma_distinct_keys();
    lemma_declared_order(p.spec_fields());
    lemma_declared_order(p.sort.spec_fields());
    lemma_declared_order(p.query.spec_fields());
}

/// Round trip: the name and the id percent-encoded into the path decode
/// back to themselves, and with every optional field set, each top-level key appears
/// once with its value, and reading the joined sort and filter values back
/// into `key:value` entries gives each of their keys once with its value.
pub proof fn law_round_trip(p: AuctionSearchParameter)
    requires
        p.limit is Some && p.word_type is Some && p.word_short is Some,
        p.sort.unit_price is Some && p.sort.reinforce is Some && p.sort.auction_no is Some,
        p.query.rarity is Some && p.query.min_level is Some && p.query.max_level is Some,
        p.query.min_reinforce is Some && p.query.max_reinforce is Some,
        p.query.min_refine is Some && p.query.max_refine is Some,
        p.query.min_adventure_fame is Some && p.query.max_adventure_fame is Some,
    ensures
        round_trips(p.spec_fields()),
        round_trips(p.sort.spec_fields()),
        round_trips(p.query.spec_fields()),
        p.spec_fields()[1].1 == Some(join_entries(present(p.sort.spec_fields()))),
        p.spec_fields()[4].1 == Some(join_entries(present(p.query.spec_fields()))),
        parse_entries(join_entries(present(p.sort.spec_fields()))) == present(p.sort.spec_fields()),
        parse_entries(join_entries(present(p.query.spec_fields()))) == present(
            p.query.spec_fields(),
        ),
        vstd::utf8::decode_utf8(percent_decode(url_encoded(p.item_name@))) == p.item_name@,
        vstd::utf8::decode_utf8(percent_decode(url_encoded(p.item_id@))) == p.item_id@,
{
    law_encoded_name_decodes(p.item_name@);
    law_encoded_name_decodes(p.item_id@);
    p.lemma_distinct_keys();
    p.sort.lemma_distinct_keys();
    p.query.lemma_distinct_keys();
    lemma_plain_nested(p);
    lemma_nested_full_round_trip(p.sort.spec_fields());
    lemma_nested_full_round_trip(p.query.spec_fields());
    let fl = p.spec_fields();
    assert(all_set(fl));
    lemma_all_set_present(fl);
    lemma_all_set_once(fl);
}

} // verus!
