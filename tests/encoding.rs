use df_rs::auction::{AuctionHandler, AuctionSearchParameter, Query, Sort, SortOrder};
use df_rs::character::{CharacterHandler, TimelineParameter};
use df_rs::date::DateTime;
use df_rs::item::{ItemHandler, ItemSearchParameter};
use df_rs::kinds::{ItemRarity, Server};
use df_rs::query::WordType;

fn pairs(v: &[(&str, &str)]) -> Vec<(String, String)> {
    v.iter().map(|(k, v)| (k.to_string(), v.to_string())).collect()
}

#[test]
fn unset_fields_are_omitted() {
    let p = AuctionSearchParameter::default();
    assert!(p.query_pairs().is_empty());
    let p = ItemSearchParameter::default();
    assert!(p.query_pairs().is_empty());
    let mut h = ItemHandler::new();
    h.limit(3);
    assert_eq!(h.param.query_pairs(), pairs(&[("limit", "3")]));
}

#[test]
fn empty_nested_structures_are_omitted() {
    let mut p = ItemSearchParameter::default();
    p.query = Some(df_rs::item::Query::default());
    assert!(p.query_pairs().is_empty());
    let mut a = AuctionSearchParameter::default();
    a.word_short = Some(false);
    assert_eq!(a.query_pairs(), pairs(&[("wordShort", "false")]));
}

#[test]
fn nested_fields_follow_declared_order() {
    let mut a = AuctionHandler::new();
    a.max_level(110).sort_by_auction_no(SortOrder::Desc).rarity(ItemRarity::Epic).min_level(100);
    a.sort_by_unit_price(SortOrder::Asc);
    let mut b = AuctionHandler::new();
    b.sort_by_unit_price(SortOrder::Asc).min_level(100).rarity(ItemRarity::Epic);
    b.sort_by_auction_no(SortOrder::Desc).max_level(110);
    let expected = pairs(&[
        ("sort", "unitPrice:asc,auctionNo:desc"),
        ("q", "rarity:에픽,minLevel:100,maxLevel:110"),
    ]);
    assert_eq!(a.param.query_pairs(), expected);
    assert_eq!(b.param.query_pairs(), expected);
}

#[test]
fn fully_populated_round_trip() {
    let mut h = AuctionHandler::new();
    h.name("무색 큐브 조각")
        .limit(400)
        .word_type(WordType::Front)
        .word_short(true)
        .sort_by_unit_price(SortOrder::Asc)
        .sort_by_reinforce(SortOrder::Desc)
        .sort_by_auction_no(SortOrder::Asc)
        .rarity(ItemRarity::Legendary)
        .level(1, 105)
        .reinforce(0, 12)
        .refine(2, 8)
        .adventure_fame(1000, 65535);
    let got = h.param.query_pairs();
    assert_eq!(
        got,
        pairs(&[
            ("limit", "400"),
            ("sort", "unitPrice:asc,reinforce:desc,auctionNo:asc"),
            ("wordType", "front"),
            ("wordShort", "true"),
            (
                "q",
                "rarity:레전더리,minLevel:1,minReinforce:0,minRefine:2,minAdventureFame:1000,\
                 maxLevel:105,maxReinforce:12,maxRefine:8,maxAdventureFame:65535"
            ),
        ])
    );
    // every key once; nested values parse back into their entries
    for key in ["limit", "sort", "wordType", "wordShort", "q"] {
        assert_eq!(got.iter().filter(|(k, _)| k == key).count(), 1);
    }
    let q = &got[4].1;
    let entries: Vec<(&str, &str)> =
        q.split(',').map(|e| e.split_once(':').unwrap()).collect();
    assert_eq!(entries.len(), 9);
    assert_eq!(entries[0], ("rarity", "레전더리"));
    assert_eq!(entries[8], ("maxAdventureFame", "65535"));
}

#[test]
fn item_name_is_percent_encoded_with_space_as_pct20() {
    let mut h = AuctionHandler::new();
    h.name("무색 큐브 조각");
    let req = h.search_request().unwrap();
    assert_eq!(
        req.path,
        "/auction?itemName=%EB%AC%B4%EC%83%89%20%ED%81%90%EB%B8%8C%20%EC%A1%B0%EA%B0%81"
    );
    assert!(req.path.contains("%20"));
    assert!(!req.path.contains('+'));
    let sold = h.sold_request().unwrap();
    assert!(sold.path.starts_with("/auction-sold?itemName=%EB%AC%B4"));
}

#[test]
fn plus_sign_in_name_is_escaped() {
    let mut h = ItemHandler::new();
    h.name("a+b c");
    let req = h.search_request().unwrap();
    assert_eq!(req.path, "/items?itemName=a%2Bb%20c");
}

#[test]
fn auction_by_id_is_percent_encoded() {
    let mut h = AuctionHandler::new();
    h.id("785e56a0ed4e3efd573da1f56a45217d");
    assert_eq!(h.make_url("/auction").unwrap(), "/auction?itemId=785e56a0ed4e3efd573da1f56a45217d");
    h.id("a b+c");
    let url = h.make_url("/auction").unwrap();
    assert_eq!(url, "/auction?itemId=a%20b%2Bc");
    assert!(!url.contains(' '));
    assert!(!url.contains('+'));
    let sold = h.sold_request().unwrap();
    assert_eq!(sold.path, "/auction-sold?itemId=a%20b%2Bc");
}

#[test]
fn sold_search_keeps_only_its_parameters() {
    let mut h = AuctionHandler::new();
    h.name("x").limit(5).word_type(WordType::Full).min_level(3).sort_by_reinforce(SortOrder::Asc);
    let req = h.sold_request().unwrap();
    assert_eq!(req.query, pairs(&[("limit", "5"), ("wordType", "full")]));
}

#[test]
fn search_without_identifier_fails_before_any_request() {
    let h = AuctionHandler::new();
    match h.search_request() {
        Err(df_rs::error::Error::InvalidQueryParameter(e)) => {
            assert_eq!(e.path, "/auction");
            assert_eq!(e.message, "`itemName` or `itemId` must be specified.");
        }
        _ => panic!("expected an invalid query parameter"),
    }
    match h.sold_request() {
        Err(df_rs::error::Error::InvalidQueryParameter(e)) => {
            assert_eq!(e.path, "/auction-sold");
            assert_eq!(e.message, "`itemName` or `itemId` must be specified.");
        }
        _ => panic!("expected an invalid query parameter"),
    }
    match ItemHandler::new().search_request() {
        Err(df_rs::error::Error::InvalidQueryParameter(e)) => {
            assert_eq!(e.path, "/items");
            assert_eq!(e.message, "`itemName` must be specified.");
        }
        _ => panic!("expected an invalid query parameter"),
    }
    match ItemHandler::new().multi_info_request() {
        Err(df_rs::error::Error::InvalidQueryParameter(e)) => {
            assert_eq!(e.path, "/multi/items");
        }
        _ => panic!("expected an invalid query parameter"),
    }
    let mut c = CharacterHandler::new();
    c.server(Server::Cain);
    match c.search_request() {
        Err(df_rs::error::Error::InvalidQueryParameter(e)) => {
            assert_eq!(e.path, "/servers/cain/characters");
            assert_eq!(e.message, "`characterName` must be specified.");
        }
        _ => panic!("expected an invalid query parameter"),
    }
}

#[test]
fn character_search_request() {
    let mut c = CharacterHandler::new();
    c.name("김철수").job_id("41f1cdc2ff58bb5fdc287be0db2a8df3").limit(10).word_type(WordType::Match);
    let req = c.search_request().unwrap();
    assert_eq!(req.path, "/servers/all/characters?characterName=%EA%B9%80%EC%B2%A0%EC%88%98");
    assert_eq!(
        req.query,
        pairs(&[("jobId", "41f1cdc2ff58bb5fdc287be0db2a8df3"), ("wordType", "match"), ("limit", "10")])
    );
}

#[test]
fn item_requests() {
    let mut h = ItemHandler::new();
    h.name("무색 큐브 조각").limit(7).rarity(ItemRarity::Rare).min_level(50);
    let req = h.search_request().unwrap();
    assert_eq!(req.query, pairs(&[("limit", "7"), ("q", "minLevel:50,rarity:레어")]));
    h.id("785e56a0ed4e3efd573da1f56a45217d");
    assert_eq!(h.info_request().path, "/items/785e56a0ed4e3efd573da1f56a45217d");
    let ids = vec!["a".to_string(), "b".to_string(), "c".to_string()];
    h.id_iter(&ids);
    assert_eq!(h.param.item_id, "a,b,c");
    assert_eq!(h.multi_info_request().unwrap().path, "/multi/items?itemIds=a,b,c");
}

#[test]
fn specific_character_paths() {
    let c = CharacterHandler::new();
    let s = c._of(Server::Prey, "abc");
    assert_eq!(s.info_request().path, "/servers/prey/characters/abc/");
    assert_eq!(s.equipments_request().path, "/servers/prey/characters/abc/equip/equipment");
    assert_eq!(s.avatars_request().path, "/servers/prey/characters/abc/equip/avatar");
    assert_eq!(s.creature_request().path, "/servers/prey/characters/abc/equip/creature");
    assert_eq!(s.flag_request().path, "/servers/prey/characters/abc/equip/flag");
    assert_eq!(s.talismans_request().path, "/servers/prey/characters/abc/equip/talisman");
    let b = s.buff();
    assert_eq!(
        b.avatars_request().path,
        "/servers/prey/characters/abc/skill/buff/equip/avatar"
    );
    assert_eq!(
        b.equipments_request().path,
        "/servers/prey/characters/abc/skill/buff/equip/equipment"
    );
    assert_eq!(
        b.creature_request().path,
        "/servers/prey/characters/abc/skill/buff/equip/creature"
    );
}

#[test]
fn timeline_request_formats_dates() {
    let s = CharacterHandler::new()._of(Server::Hilder, "id1");
    let mut t = TimelineParameter::default();
    t.start_date = DateTime::new(2023, 7, 1, 9, 5, 0);
    t.end_date = DateTime::new(2023, 7, 20, 23, 6, 0);
    t.limit = Some(100);
    t.code = Some("504,505".to_string());
    let req = s.timeline_request(Some(&t));
    assert_eq!(req.path, "/servers/hilder/characters/id1/timeline");
    assert_eq!(
        req.query,
        pairs(&[
            ("startDate", "2023-07-01 09:05"),
            ("endDate", "2023-07-20 23:06"),
            ("limit", "100"),
            ("code", "504,505"),
        ])
    );
    assert!(s.timeline_request(None).query.is_empty());
}

#[test]
fn explicit_parameter_replacement() {
    let mut h = AuctionHandler::new();
    let mut q = Query::default();
    q.min_refine = Some(4);
    let mut s = Sort::default();
    s.reinforce = Some(SortOrder::Desc);
    h.query(q).sort(s);
    assert_eq!(
        h.param.query_pairs(),
        pairs(&[("sort", "reinforce:desc"), ("q", "minRefine:4")])
    );
    let mut p = AuctionSearchParameter::default();
    p.limit = Some(9);
    h.param(p);
    assert_eq!(h.param.query_pairs(), pairs(&[("limit", "9")]));
}
