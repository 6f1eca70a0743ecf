use df_rs::character::combine_buffs;
use df_rs::date::DateTime;
use df_rs::error::{ApiError, Error, ErrorCode};
use df_rs::image::ImageHandler;
use df_rs::kinds::{Amplification, ItemRarity, Server};
use df_rs::model::{
    AuctionItem, Avatar, BuffEnhance, CharacterBuffEnhance, Creature, Item, ItemWithRarity, Job,
    JobGrow, SearchItem, Slot,
};
use df_rs::raw;
use df_rs::request::{full_url, is_success};

#[test]
fn rows_envelope_gives_typed_items() {
    let body = r#"{"rows": [{"itemId": "a", "itemName": "b", "itemRarity": "에픽",
        "itemTypeId": "t", "itemType": "무기", "itemTypeDetailId": "d",
        "itemTypeDetail": "소검", "itemAvailableLevel": 105}]}"#;
    let v: serde_json::Value = serde_json::from_str(body).unwrap();
    let rows = v["rows"].as_array().unwrap();
    let items: Vec<SearchItem> = rows
        .iter()
        .map(|r| {
            SearchItem::from(raw::SearchItem {
                item_id: r["itemId"].as_str().unwrap().to_string(),
                item_name: r["itemName"].as_str().unwrap().to_string(),
                item_rarity: ItemRarity::from_str(r["itemRarity"].as_str().unwrap()).unwrap(),
                item_type_id: r["itemTypeId"].as_str().unwrap().to_string(),
                item_type: r["itemType"].as_str().unwrap().to_string(),
                item_type_detail_id: r["itemTypeDetailId"].as_str().unwrap().to_string(),
                item_type_detail: r["itemTypeDetail"].as_str().unwrap().to_string(),
                item_available_level: r["itemAvailableLevel"].as_u64().unwrap() as u8,
            })
        })
        .collect();
    assert_eq!(items.len(), 1);
    assert_eq!(items[0].id, "a");
    assert_eq!(items[0].name, "b");
    assert_eq!(items[0].rarity, ItemRarity::Epic);
    assert_eq!(items[0].item_type.detail.name, "소검");
    assert_eq!(items[0].available_level, 105);
}

#[test]
fn error_body_is_classified() {
    let body = r#"{"error": {"status": 429, "code": "API002", "message": "quota exceeded"}}"#;
    let v: serde_json::Value = serde_json::from_str(body).unwrap();
    let e = &v["error"];
    let err = ApiError::from_response(
        e["status"].as_u64().unwrap() as u16,
        e["code"].as_str().unwrap(),
        e["message"].as_str().unwrap().to_string(),
    )
    .unwrap();
    assert_eq!(err.status, 429);
    assert_eq!(err.code, ErrorCode::API002);
    assert_eq!(err.code.description(), "API Key  사용량 초과");
    assert_eq!(err.message, "quota exceeded");
    assert!(!is_success(429));
}

#[test]
fn unknown_error_code_is_refused() {
    match ApiError::from_response(500, "XYZ123", "?".to_string()) {
        Err(Error::UnknownErrorCode(c)) => assert_eq!(c, "XYZ123"),
        _ => panic!("an unknown code must not classify"),
    }
    assert!(ErrorCode::from_code("api002").is_none());
    assert!(ErrorCode::from_code("").is_none());
}

#[test]
fn error_codes_spell_and_describe() {
    assert_eq!(ErrorCode::DNF980.as_str(), "DNF980");
    assert_eq!(ErrorCode::DNF980.description(), "시스템 점검");
    assert_eq!(ErrorCode::DNF007.description(), "경매장 아이템 검색 갯수 제한");
    assert_eq!(ErrorCode::API000.description(), "API Key 미입력");
    assert_eq!(ErrorCode::from_code("DNF001"), Some(ErrorCode::DNF001));
    assert_eq!(ErrorCode::from_code("API999"), Some(ErrorCode::API999));
}

#[test]
fn status_classes() {
    assert!(is_success(200));
    assert!(is_success(204));
    assert!(is_success(299));
    assert!(!is_success(199));
    assert!(!is_success(300));
    assert!(!is_success(404));
}

#[test]
fn urls_are_composed() {
    assert_eq!(full_url("/auction?itemId=x"), "https://api.neople.co.kr/df/auction?itemId=x");
    assert_eq!(
        full_url("https://img-api.neople.co.kr/df/items/x"),
        "https://img-api.neople.co.kr/df/items/x"
    );
}

#[test]
fn image_requests() {
    let h = ImageHandler::new();
    let r = h._character(Server::Siroco, "cid", 2).unwrap();
    assert_eq!(r.path, "https://img-api.neople.co.kr/df/servers/siroco/characters/cid");
    assert_eq!(r.query, vec![("zoom".to_string(), "2".to_string())]);
    match h._character(Server::Siroco, "cid", 4) {
        Err(Error::InvalidQueryParameter(e)) => {
            assert_eq!(e.message, "`zoom` must be 1, 2, or 3. (current: `4`)");
            assert_eq!(e.path, "https://img-api.neople.co.kr/df/servers/siroco/characters/cid");
        }
        _ => panic!("zoom 4 must be refused"),
    }
    assert!(h._character(Server::Siroco, "cid", 0).is_err());
    let item = Item { id: "iid".to_string(), name: "n".to_string() };
    assert_eq!(h.item(&item).path, "https://img-api.neople.co.kr/df/items/iid");
}

#[test]
fn rarity_names() {
    assert_eq!(ItemRarity::from_str("신화"), Ok(ItemRarity::Mythic));
    assert_eq!(ItemRarity::from_str("커먼"), Ok(ItemRarity::Common));
    assert_eq!(ItemRarity::from_str("legendary"), Err("unknown rarity: legendary".to_string()));
    assert_eq!(ItemRarity::Chronicle.as_str(), "크로니클");
    assert!(ItemRarity::Common < ItemRarity::Mythic);
}

#[test]
fn amplification_names() {
    assert_eq!(Amplification::from_name(None), Ok(Amplification::Unamplified));
    assert_eq!(Amplification::from_name(Some("차원의 지능")), Ok(Amplification::Intelligence));
    assert_eq!(
        Amplification::from_name(Some("힘")),
        Err("invalid amplification: 힘".to_string())
    );
    assert_eq!(Amplification::Spirit.name(), Some("차원의 정신력"));
    assert_eq!(Amplification::Unamplified.name(), None);
    assert_eq!(Amplification::Unamplified.as_str(), "");
}

#[test]
fn server_ids() {
    assert_eq!(Server::All.as_str(), "all");
    assert_eq!(Server::Casillas.as_str(), "casillas");
    assert_eq!(Server::from_id("diregie"), Some(Server::Diregie));
    assert_eq!(Server::from_id("all"), Some(Server::All));
    assert_eq!(Server::from_id("Cain"), None);
}

#[test]
fn dates_validate_and_format() {
    assert!(DateTime::new(2024, 2, 29, 0, 0, 0).is_some());
    assert!(DateTime::new(2023, 2, 29, 0, 0, 0).is_none());
    assert!(DateTime::new(1900, 2, 29, 0, 0, 0).is_none());
    assert!(DateTime::new(2000, 2, 29, 0, 0, 0).is_some());
    assert!(DateTime::new(2023, 4, 31, 0, 0, 0).is_none());
    assert!(DateTime::new(2023, 13, 1, 0, 0, 0).is_none());
    assert!(DateTime::new(2023, 1, 1, 24, 0, 0).is_none());
    let d = DateTime::new(812, 3, 4, 5, 6, 7).unwrap();
    assert_eq!(d.format_minutes(), "0812-03-04 05:06");
    assert_eq!(d.format_seconds(), "0812-03-04 05:06:07");
}

#[test]
fn auction_rows_get_the_api_offset() {
    let reg = DateTime::new(2023, 7, 20, 23, 6, 0).unwrap();
    let exp = DateTime::new(2023, 7, 27, 23, 6, 0).unwrap();
    let row = raw::AuctionItem {
        auction_no: 77,
        reg_date: reg,
        expire_date: exp,
        item_id: "i".to_string(),
        item_name: "무색 큐브 조각".to_string(),
        item_available_level: 1,
        item_rarity: ItemRarity::Common,
        item_type_id: "t".to_string(),
        item_type: "스태커블".to_string(),
        item_type_detail_id: "td".to_string(),
        item_type_detail: "기타".to_string(),
        refine: 0,
        reinforce: 0,
        amplification_name: Amplification::Unamplified,
        adventure_fame: 0,
        count: 100,
        price: 5000,
        current_price: 5000,
        unit_price: 50,
        average_price: 48,
    };
    let item = AuctionItem::from(row);
    assert_eq!(item.no, 77);
    assert_eq!(item.reg_date.local, reg);
    assert_eq!(item.reg_date.offset_seconds, 9 * 3600);
    assert_eq!(item.expire_date.local, exp);
    assert_eq!(item.item.name, "무색 큐브 조각");
    assert_eq!(item.item.item_type.name, "스태커블");
    assert_eq!(item.unit_price, 50);
    assert_eq!(item.average_price, 48);
}

fn buff(id: &str, b: Option<BuffEnhance>) -> CharacterBuffEnhance {
    CharacterBuffEnhance {
        id: id.to_string(),
        name: "n".to_string(),
        level: 110,
        job: Job { id: "j".to_string(), name: "j".to_string() },
        job_grow: JobGrow { id: "g".to_string(), name: "g".to_string() },
        adventure_name: String::new(),
        guild: None,
        buff: b,
    }
}

fn iwr(id: &str) -> ItemWithRarity {
    ItemWithRarity { id: id.to_string(), name: id.to_string(), rarity: ItemRarity::Epic }
}

fn empty_enhance() -> BuffEnhance {
    BuffEnhance { skill: None, equipments: Some(vec![]), avatars: None, creature: None }
}

#[test]
fn buff_combination_merges_all_three() {
    let avatar = Avatar {
        slot: Slot { id: "s".to_string(), name: "s".to_string() },
        item: iwr("av"),
        clone: None,
        random: None,
        option_ability: None,
        emblems: vec![],
    };
    let creature = Creature { item: iwr("cr"), clone: None, artifacts: vec![] };
    let e = buff("e", Some(empty_enhance()));
    let a = buff("a", Some(BuffEnhance { avatars: Some(vec![avatar]), ..empty_enhance() }));
    let c = buff("c", Some(BuffEnhance { creature: Some(creature), ..empty_enhance() }));
    let r = combine_buffs::<Error>(Ok(e), Ok(a), Ok(c)).unwrap();
    assert_eq!(r.id, "e");
    let b = r.buff.unwrap();
    assert_eq!(b.avatars.unwrap()[0].item.id, "av");
    assert_eq!(b.creature.unwrap().item.id, "cr");
    assert!(b.equipments.unwrap().is_empty());
}

#[test]
fn buff_combination_fails_on_any_failure() {
    let fail = || {
        Err(Error::Api(ApiError {
            status: 400,
            code: ErrorCode::DNF001,
            message: "bad".to_string(),
        }))
    };
    let ok = |id: &str| Ok(buff(id, Some(empty_enhance())));
    for which in 0..3 {
        let r = combine_buffs(
            if which == 0 { fail() } else { ok("e") },
            if which == 1 { fail() } else { ok("a") },
            if which == 2 { fail() } else { ok("c") },
        );
        match r {
            Err(Error::Api(e)) => assert_eq!(e.code, ErrorCode::DNF001),
            _ => panic!("a failed lookup must fail the combination"),
        }
    }
    // no buff in the equipment result: a failure elsewhere still fails
    let r = combine_buffs(Ok(buff("e", None)), fail(), ok("c"));
    assert!(r.is_err());
}
