use df_rs::date::DateTime;
use df_rs::decode::{creature_vec_pop, flatten_rows, flatten_shop_obtain_info, opt_item, str_as_u8};
use df_rs::kinds::ItemRarity;
use df_rs::model::{Creature, Item, ItemWithRarity, Rune, StatusValue, Talisman};
use df_rs::raw;

#[test]
fn auction_dates_parse() {
    let d = DateTime::parse("2023-07-20 23:06:59", true).unwrap();
    assert_eq!((d.year, d.month, d.day, d.hour, d.minute, d.second), (2023, 7, 20, 23, 6, 59));
    assert_eq!(d.format_seconds(), "2023-07-20 23:06:59");
}

#[test]
fn timeline_dates_parse() {
    let d = DateTime::parse("2024-02-29 00:00", false).unwrap();
    assert_eq!((d.year, d.month, d.day, d.hour, d.minute, d.second), (2024, 2, 29, 0, 0, 0));
    assert_eq!(d.format_minutes(), "2024-02-29 00:00");
}

#[test]
fn malformed_dates_are_refused() {
    assert!(DateTime::parse("2023-02-29 00:00", false).is_none());
    assert!(DateTime::parse("2023-07-20 24:00:00", true).is_none());
    assert!(DateTime::parse("2023-07-20T23:06:00", true).is_none());
    assert!(DateTime::parse("2023-07-20 23:06", true).is_none());
    assert!(DateTime::parse("2023-07-20 23:06:00", false).is_none());
    assert!(DateTime::parse("2023-7-20 23:06:00", true).is_none());
    assert!(DateTime::parse("", true).is_none());
}

#[test]
fn numbers_written_as_text() {
    assert_eq!(str_as_u8("0"), Some(0));
    assert_eq!(str_as_u8("7"), Some(7));
    assert_eq!(str_as_u8("255"), Some(255));
    assert_eq!(str_as_u8("256"), None);
    assert_eq!(str_as_u8("99999999999999"), None);
    assert_eq!(str_as_u8(""), None);
    assert_eq!(str_as_u8("1a"), None);
    assert_eq!(str_as_u8("-1"), None);
}

#[test]
fn percentage_values() {
    let v = StatusValue::from_percent_text("12.5%").unwrap();
    assert_eq!(v.value, "12.5");
    assert_eq!(v.suffix, Some('%'));
    assert!(StatusValue::from_percent_text("12.5").is_none());
    assert!(StatusValue::from_percent_text("").is_none());
    let n = StatusValue::from_number_text("340".to_string());
    assert_eq!(n.value, "340");
    assert_eq!(n.suffix, None);
}

#[test]
fn nullable_items() {
    let i = opt_item(Some("id".to_string()), Some("name".to_string())).unwrap();
    assert_eq!(i.id, "id");
    assert_eq!(i.name, "name");
    assert!(opt_item(None, Some("name".to_string())).is_none());
    assert!(opt_item(Some("id".to_string()), None).is_none());
    assert!(opt_item(None, None).is_none());
}

fn creature(id: &str) -> Creature {
    Creature {
        item: ItemWithRarity { id: id.to_string(), name: id.to_string(), rarity: ItemRarity::Rare },
        clone: None,
        artifacts: vec![],
    }
}

#[test]
fn creature_lists() {
    assert!(creature_vec_pop(None).unwrap().is_none());
    let c = creature_vec_pop(Some(vec![creature("a"), creature("b")])).unwrap().unwrap();
    assert_eq!(c.item.id, "b");
    assert_eq!(
        creature_vec_pop(Some(vec![])).unwrap_err(),
        "buff creature should be at least one"
    );
}

#[test]
fn row_lists_flatten() {
    let rows = vec![
        raw::DungeonObtainInfoRow { name: "d1".to_string() },
        raw::DungeonObtainInfoRow { name: "d2".to_string() },
    ];
    assert_eq!(flatten_rows(rows), vec!["d1".to_string(), "d2".to_string()]);
    let row = |n: &str, d: &[&str]| raw::ShopObtainInfoRow {
        name: n.to_string(),
        details: d.iter().map(|s| s.to_string()).collect(),
    };
    let shops = vec![
        raw::ShopObtainInfo { rows: vec![row("A", &["B", "C"]), row("D", &[])] },
        raw::ShopObtainInfo { rows: vec![] },
        raw::ShopObtainInfo { rows: vec![row("E", &["F"])] },
    ];
    let flat = flatten_shop_obtain_info(shops);
    assert_eq!(flat.len(), 3);
    assert_eq!(flat[0].name, "A");
    assert_eq!(flat[0].details, vec!["B".to_string(), "C".to_string()]);
    assert_eq!(flat[1].name, "D");
    assert_eq!(flat[2].name, "E");
    assert_eq!(flat[2].details, vec!["F".to_string()]);
}

#[test]
fn talisman_from_parts() {
    let rune = Rune { slot_no: 1, item: Item { id: "r".to_string(), name: "rune".to_string() } };
    let t = Talisman::from_parts(vec![rune], "t".to_string(), "talisman".to_string(), 2);
    assert_eq!(t.slot_no, 2);
    assert_eq!(t.item.id, "t");
    assert_eq!(t.item.name, "talisman");
    assert_eq!(t.runes.len(), 1);
    assert_eq!(t.runes[0].item.id, "r");
}
