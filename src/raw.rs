//! The response shapes exactly as the API writes them, field for field,
//! before they are regrouped into the model.

use vstd::prelude::*;

use crate::date::DateTime;
use crate::kinds::{Amplification, ItemRarity};

verus! {

/// A row of an item search.
#[derive(Debug, Clone)]
pub struct SearchItem {
    pub item_id: String,
    pub item_name: String,
    pub item_rarity: ItemRarity,
    pub item_type_id: String,
    pub item_type: String,
    pub item_type_detail_id: String,
    pub item_type_detail: String,
    pub item_available_level: u8,
}

/// The details of an item.
#[derive(Debug, Clone)]
pub struct ItemInfo {
    pub item_id: String,
    pub item_name: String,
    pub item_rarity: ItemRarity,
    pub item_type_id: String,
    pub item_type: String,
    pub item_type_detail_id: String,
    pub item_type_detail: String,
    pub item_available_level: u8,
    pub item_explain: String,
    pub item_explain_detail: String,
    pub item_flavor_text: String,
    pub obtain_info: Option<ObtainInfo>,
    pub set_item_id: Option<String>,
    pub set_item_name: Option<String>,
    pub item_status: Vec<Status>,
    pub item_reinforce_skill: Vec<ReinforceSkill>,
    pub creature_info: Option<CreatureInfo>,
    pub card_info: Option<CardInfo>,
    pub grow_info: Option<GrowInfo>,
    pub item_buff: Option<ItemBuff>,
    pub ispins_info: Option<FusionInfo>,
    pub machine_revolution_info: Option<FusionInfo>,
    pub dimension_cloister_info: Option<FusionInfo>,
    pub bakal_info: Option<FusionInfo>,
    pub talisman_info: Option<TalismanInfo>,
    pub rune_info: Option<RuneInfo>,
    pub hashtag: Vec<String>,
}

/// Where an item is obtained.
#[derive(Debug, Clone)]
pub struct ObtainInfo {
    pub dungeon: Vec<DungeonObtainInfo>,
    pub shop: Vec<ShopObtainInfo>,
}

/// Dungeons of one kind.
#[derive(Debug, Clone)]
pub struct DungeonObtainInfo {
    pub dungeon_type: String,
    pub rows: Vec<DungeonObtainInfoRow>,
}

/// A dungeon.
#[derive(Debug, Clone)]
pub struct DungeonObtainInfoRow {
    pub name: String,
}

/// Shops.
#[derive(Debug, Clone)]
pub struct ShopObtainInfo {
    pub rows: Vec<ShopObtainInfoRow>,
}

/// A shop.
#[derive(Debug, Clone)]
pub struct ShopObtainInfoRow {
    pub name: String,
    pub details: Vec<String>,
}

/// A named status value.
#[derive(Debug, Clone)]
pub struct Status {
    pub name: String,
    pub value: ItemStatusValue,
}

/// A status value: text or a whole number.
#[derive(Debug, Clone)]
pub enum ItemStatusValue {
    Text(String),
    Number(u32),
}

/// Growth of an item.
#[derive(Debug, Clone)]
pub struct GrowInfo {
    pub total: GrowInfoTotal,
    pub options: Vec<GrowInfoOption>,
}

/// Total growth.
#[derive(Debug, Clone)]
pub struct GrowInfoTotal {
    pub damage: u32,
    pub buff: u32,
    pub level: u32,
}

/// One growth option.
#[derive(Debug, Clone)]
pub struct GrowInfoOption {
    pub level: u32,
    pub exp_rate: u32,
    pub explain: String,
    pub explain_detail: String,
    pub damage: u32,
    pub buff: u32,
}

/// Skills of one job that an item reinforces.
#[derive(Debug, Clone)]
pub struct ReinforceSkill {
    pub job_name: String,
    pub job_id: String,
    pub skills: Vec<ReinforceSkillRow>,
    pub level_range: Vec<ReinforceSkillLevelRange>,
}

/// A reinforced skill.
#[derive(Debug, Clone)]
pub struct ReinforceSkillRow {
    pub skill_id: String,
    pub name: String,
    pub value: u32,
}

/// Card slots and enchantments.
#[derive(Debug, Clone)]
pub struct CardInfo {
    pub slots: Vec<CardInfoSlot>,
    pub enchant: Vec<CardInfoEnchant>,
}

/// A card slot.
#[derive(Debug, Clone)]
pub struct CardInfoSlot {
    pub slot_id: String,
    pub slot_name: String,
}

/// A card enchantment.
#[derive(Debug, Clone)]
pub struct CardInfoEnchant {
    pub reinforce_skill: Vec<CardInfoReinforceSkill>,
    pub status: Vec<Status>,
    pub upgrade: u8,
}

/// Skills of one job that a card reinforces.
#[derive(Debug, Clone)]
pub struct CardInfoReinforceSkill {
    pub job_id: String,
    pub job_name: String,
    pub skills: Vec<CardInfoReinforceSkillRow>,
}

/// A skill reinforced by a card; the API writes its value as text.
#[derive(Debug, Clone)]
pub struct CardInfoReinforceSkillRow {
    pub skill_id: String,
    pub name: String,
    pub value: String,
}

/// Skills of a creature item.
#[derive(Debug, Clone)]
pub struct CreatureInfo {
    pub skill: CreatureSkill,
    pub overskill: Option<CreatureOverSkill>,
}

/// A creature skill.
#[derive(Debug, Clone)]
pub struct CreatureSkill {
    pub name: String,
    pub description: String,
    pub cooldown_time: u32,
}

/// A creature over-skill.
#[derive(Debug, Clone)]
pub struct CreatureOverSkill {
    pub name: String,
    pub description: String,
    pub cooldown_time: u32,
    pub level: u8,
}

/// Buff of an item.
#[derive(Debug, Clone)]
pub struct ItemBuff {
    pub explain: String,
    pub explain_detail: String,
    pub reinforce_skill: Vec<ReinforceSkill>,
}

/// Fusion options.
#[derive(Debug, Clone)]
pub struct FusionInfo {
    pub options: Vec<FusionInfoOption>,
}

/// One fusion option.
#[derive(Debug, Clone)]
pub struct FusionInfoOption {
    pub damage: u32,
    pub buff: u32,
    pub explain: String,
    pub explain_detail: String,
}

/// Skills within a level range that an item reinforces.
#[derive(Debug, Clone)]
pub struct ReinforceSkillLevelRange {
    pub min_level: u32,
    pub max_level: u32,
    pub value: u32,
}

/// The skill of a talisman.
#[derive(Debug, Clone)]
pub struct TalismanInfo {
    pub skill_id: String,
    pub skill_name: String,
    pub explain: String,
    pub explain_detail: String,
}

/// The skill of a rune.
#[derive(Debug, Clone)]
pub struct RuneInfo {
    pub skill_id: String,
    pub skill_name: String,
    pub rune_type: String,
}

/// An item sold in a shop.
#[derive(Debug, Clone)]
pub struct ShopItem {
    pub item_id: String,
    pub item_name: String,
    pub item_grade_name: String,
    pub item_grade_value: u32,
    pub item_status: Vec<Status>,
}

/// A row of a set search.
#[derive(Debug, Clone)]
pub struct SearchSetItem {
    pub set_item_id: String,
    pub set_item_name: String,
}

/// The details of a set.
#[derive(Debug, Clone)]
pub struct SetItemInfo {
    pub set_item_id: String,
    pub set_item_name: String,
    pub set_items: Vec<SetItemInfoItem>,
    pub set_item_option: Vec<SetItemInfoOption>,
}

/// An item of a set.
#[derive(Debug, Clone)]
pub struct SetItemInfoItem {
    pub slot_id: String,
    pub slot_name: String,
    pub item_id: Option<String>,
    pub item_name: String,
    pub item_rarity: ItemRarity,
}

/// The effect of a number of set pieces.
#[derive(Debug, Clone)]
pub struct SetItemInfoOption {
    pub option_no: u8,
    pub status: Vec<Status>,
}

/// A row of an auction search.
#[derive(Debug, Clone)]
pub struct AuctionItem {
    pub auction_no: u32,
    pub reg_date: DateTime,
    pub expire_date: DateTime,
    pub item_id: String,
    pub item_name: String,
    pub item_available_level: u8,
    pub item_rarity: ItemRarity,
    pub item_type_id: String,
    pub item_type: String,
    pub item_type_detail_id: String,
    pub item_type_detail: String,
    pub refine: u8,
    pub reinforce: u8,
    pub amplification_name: Amplification,
    pub adventure_fame: u32,
    pub count: u32,
    pub price: i32,
    pub current_price: u32,
    pub unit_price: u32,
    pub average_price: u32,
}

/// A row of a search of sold items.
#[derive(Debug, Clone)]
pub struct AuctionSoldItem {
    pub sold_date: DateTime,
    pub item_id: String,
    pub item_name: String,
    pub item_available_level: u8,
    pub item_rarity: ItemRarity,
    pub item_type_id: String,
    pub item_type: String,
    pub item_type_detail_id: String,
    pub item_type_detail: String,
    pub refine: u8,
    pub reinforce: u8,
    pub amplification_name: Amplification,
    pub count: u32,
    pub price: u32,
    pub unit_price: u32,
}

} // verus!
