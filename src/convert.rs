//! Regrouping of the raw response rows into the model: flat `item*`
//! columns become nested item, type and detail values, and auction dates
//! get the API's fixed offset of UTC+9.

use vstd::prelude::*;

use crate::date::DateTime;
use crate::model::{
    AuctionItem, AuctionSoldItem, ItemExt, ItemType, ItemTypeDetail, OffsetDateTime, SearchItem,
};
use crate::raw;

verus! {

/// Offset of the API's dates from UTC: nine hours.
pub const KST_OFFSET_SECONDS: i32 = 32400;

impl From<DateTime> for OffsetDateTime {
    fn from(value: DateTime) -> OffsetDateTime {
        OffsetDateTime { local: value, offset_seconds: KST_OFFSET_SECONDS }
    }
}

impl vstd::std_specs::convert::FromSpecImpl<DateTime> for OffsetDateTime {
    open spec fn obeys_from_spec() -> bool {
        true
    }

    open spec fn from_spec(v: DateTime) -> OffsetDateTime {
        OffsetDateTime { local: v, offset_seconds: KST_OFFSET_SECONDS }
    }
}

impl From<raw::SearchItem> for SearchItem {
    fn from(value: raw::SearchItem) -> SearchItem {
        let raw::SearchItem {
            item_id,
            item_name,
            item_rarity,
            item_type_id,
            item_type,
            item_type_detail_id,
            item_type_detail,
            item_available_level,
        } = value;
        SearchItem {
            id: item_id,
            name: item_name,
            rarity: item_rarity,
            item_type: ItemType {
                id: item_type_id,
                name: item_type,
                detail: ItemTypeDetail { id: item_type_detail_id, name: item_type_detail },
            },
            available_level: item_available_level,
        }
    }
}

impl vstd::std_specs::convert::FromSpecImpl<raw::SearchItem> for SearchItem {
    open spec fn obeys_from_spec() -> bool {
        true
    }

    open spec fn from_spec(v: raw::SearchItem) -> SearchItem {
        SearchItem {
            id: v.item_id,
            name: v.item_name,
            rarity: v.item_rarity,
            item_type: ItemType {
                id: v.item_type_id,
                name: v.item_type,
                detail: ItemTypeDetail { id: v.item_type_detail_id, name: v.item_type_detail },
            },
            available_level: v.item_available_level,
        }
    }
}

impl From<raw::AuctionItem> for AuctionItem {
    fn from(value: raw::AuctionItem) -> AuctionItem {
        let raw::AuctionItem {
            auction_no,
            reg_date,
            expire_date,
            item_id,
            item_name,
            item_available_level,
            item_rarity,
            item_type_id,
            item_type,
            item_type_detail_id,
            item_type_detail,
            refine,
            reinforce,
            amplification_name,
            adventure_fame,
            count,
            price: _,
            current_price,
            unit_price,
            average_price,
        } = value;
        AuctionItem {
            no: auction_no,
            reg_date: OffsetDateTime::from(reg_date),
            expire_date: OffsetDateTime::from(expire_date),
            item: ItemExt {
                id: item_id,
                name: item_name,
                rarity: item_rarity,
                item_type: ItemType {
                id: item_type_id,
                name: item_type,
                detail: ItemTypeDetail { id: item_type_detail_id, name: item_type_detail },
            },
                refine: refine,
                reinforce: reinforce,
                amplification_name: amplification_name,
                available_level: item_available_level,
            },
            adventure_fame,
            count,
            current_price,
            unit_price,
            average_price,
        }
    }
}

impl vstd::std_specs::convert::FromSpecImpl<raw::AuctionItem> for AuctionItem {
    open spec fn obeys_from_spec() -> bool {
        true
    }

    open spec fn from_spec(v: raw::AuctionItem) -> AuctionItem {
        AuctionItem {
            no: v.auction_no,
            reg_date: OffsetDateTime { local: v.reg_date, offset_seconds: KST_OFFSET_SECONDS },
            expire_date: OffsetDateTime { local: v.expire_date, offset_seconds: KST_OFFSET_SECONDS },
            item: ItemExt {
                id: v.item_id,
                name: v.item_name,
                rarity: v.item_rarity,
                item_type: ItemType {
                id: v.item_type_id,
                name: v.item_type,
                detail: ItemTypeDetail { id: v.item_type_detail_id, name: v.item_type_detail },
            },
                refine: v.refine,
                reinforce: v.reinforce,
                amplification_name: v.amplification_name,
                available_level: v.item_available_level,
            },
            adventure_fame: v.adventure_fame,
            count: v.count,
            current_price: v.current_price,
            unit_price: v.unit_price,
            average_price: v.average_price,
        }
    }
}

impl From<raw::AuctionSoldItem> for AuctionSoldItem {
    fn from(value: raw::AuctionSoldItem) -> AuctionSoldItem {
        let raw::AuctionSoldItem {
            sold_date,
            item_id,
            item_name,
            item_available_level,
            item_rarity,
            item_type_id,
            item_type,
            item_type_detail_id,
            item_type_detail,
            refine,
            reinforce,
            amplification_name,
            count,
            price,
            unit_price,
        } = value;
        AuctionSoldItem {
            sold_date: OffsetDateTime::from(sold_date),
            item: ItemExt {
                id: item_id,
                name: item_name,
                rarity: item_rarity,
                item_type: ItemType {
                id: item_type_id,
                name: item_type,
                detail: ItemTypeDetail { id: item_type_detail_id, name: item_type_detail },
            },
                refine: refine,
                reinforce: reinforce,
                amplification_name: amplification_name,
                available_level: item_available_level,
            },
            count,
            price,
            unit_price,
        }
    }
}

impl vstd::std_specs::convert::FromSpecImpl<raw::AuctionSoldItem> for AuctionSoldItem {
    open spec fn obeys_from_spec() -> bool {
        true
    }

    open spec fn from_spec(v: raw::AuctionSoldItem) -> AuctionSoldItem {
        AuctionSoldItem {
            sold_date: OffsetDateTime { local: v.sold_date, offset_seconds: KST_OFFSET_SECONDS },
            item: ItemExt {
                id: v.item_id,
                name: v.item_name,
                rarity: v.item_rarity,
                item_type: ItemType {
                id: v.item_type_id,
                name: v.item_type,
                detail: ItemTypeDetail { id: v.item_type_detail_id, name: v.item_type_detail },
            },
                refine: v.refine,
                reinforce: v.reinforce,
                amplification_name: v.amplification_name,
                available_level: v.item_available_level,
            },
            count: v.count,
            price: v.price,
            unit_price: v.unit_price,
        }
    }
}

} // verus!
