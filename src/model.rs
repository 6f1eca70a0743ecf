//! The response data model: the shapes that the API's JSON bodies are
//! read into. Numbers that the API sends as fractions are kept as the
//! decimal text it wrote.

use vstd::prelude::*;

use crate::date::DateTime;
use crate::kinds::{Amplification, ItemRarity, Server, SkillCostType};

verus! {

/// An equipment slot.
#[derive(Debug, Clone)]
pub struct Slot {
    pub id: String,
    pub name: String,
}

/// A status value: its number as the API wrote it, and `%` when it is a percentage.
#[derive(Debug, Clone)]
pub struct StatusValue {
    pub value: String,
    pub suffix: Option<char>,
}

/// Named status values, in the order the API lists them. Every entry is
/// kept as sent: a name the API repeats appears once per occurrence.
#[derive(Debug, Clone)]
pub struct Status {
    pub entries: Vec<(String, StatusValue)>,
}

/// A character found by a search.
#[derive(Debug, Clone)]
pub struct Character {
    pub id: String,
    pub name: String,
    pub server: Server,
    pub level: u8,
    pub job: Job,
    pub job_grow: JobGrow,
}

/// Basic information of a character.
#[derive(Debug, Clone)]
pub struct CharacterInfo {
    pub id: String,
    pub name: String,
    pub level: u8,
    pub job: Job,
    pub job_grow: JobGrow,
    /// Empty for old characters that have none.
    pub adventure_name: String,
    pub guild: Option<Guild>,
}

/// A guild.
#[derive(Debug, Clone)]
pub struct Guild {
    pub id: String,
    pub name: String,
}

/// A job.
#[derive(Debug, Clone)]
pub struct Job {
    pub id: String,
    pub name: String,
}

/// A job advancement.
#[derive(Debug, Clone)]
pub struct JobGrow {
    pub id: String,
    pub name: String,
}

/// A character with its equipment.
#[derive(Debug, Clone)]
pub struct CharacterEquipments {
    pub id: String,
    pub name: String,
    pub level: u8,
    pub job: Job,
    pub job_grow: JobGrow,
    /// Empty for old characters that have none.
    pub adventure_name: String,
    pub guild: Option<Guild>,
    pub equipments: Vec<Equipment>,
}

/// A character with its avatars.
#[derive(Debug, Clone)]
pub struct CharacterAvatars {
    pub id: String,
    pub name: String,
    pub level: u8,
    pub job: Job,
    pub job_grow: JobGrow,
    /// Empty for old characters that have none.
    pub adventure_name: String,
    pub guild: Option<Guild>,
    pub avatars: Vec<Avatar>,
}

/// A character with its creature.
#[derive(Debug, Clone)]
pub struct CharacterCreature {
    pub id: String,
    pub name: String,
    pub level: u8,
    pub job: Job,
    pub job_grow: JobGrow,
    /// Empty for old characters that have none.
    pub adventure_name: String,
    pub guild: Option<Guild>,
    pub creature: Option<Creature>,
}

/// A character with its flag.
#[derive(Debug, Clone)]
pub struct CharacterFlag {
    pub id: String,
    pub name: String,
    pub level: u8,
    pub job: Job,
    pub job_grow: JobGrow,
    /// Empty for old characters that have none.
    pub adventure_name: String,
    pub guild: Option<Guild>,
    pub flag: Option<Flag>,
}

/// A character with its talismans.
#[derive(Debug, Clone)]
pub struct CharacterTalismans {
    pub id: String,
    pub name: String,
    pub level: u8,
    pub job: Job,
    pub job_grow: JobGrow,
    /// Empty for old characters that have none.
    pub adventure_name: String,
    pub guild: Option<Guild>,
    pub talismans: Vec<Talisman>,
}

/// A character with its timeline.
#[derive(Debug, Clone)]
pub struct CharacterTimeline {
    pub id: String,
    pub name: String,
    pub level: u8,
    pub job: Job,
    pub job_grow: JobGrow,
    /// Empty for old characters that have none.
    pub adventure_name: String,
    pub guild: Option<Guild>,
    pub timeline: Option<Timeline>,
}

/// A character with its buff enhancement.
#[derive(Debug, Clone)]
pub struct CharacterBuffEnhance {
    pub id: String,
    pub name: String,
    pub level: u8,
    pub job: Job,
    pub job_grow: JobGrow,
    /// Empty for old characters that have none.
    pub adventure_name: String,
    pub guild: Option<Guild>,
    pub buff: Option<BuffEnhance>,
}

/// A piece of equipment worn by a character.
#[derive(Debug, Clone)]
pub struct Equipment {
    pub slot: Slot,
    pub item: ItemExt,
    pub set_item_id: Option<String>,
    pub set_item_name: Option<String>,
    pub item_grade_name: Option<String>,
    pub enchant: Option<Enchant>,
    pub grow_info: Option<GrowInfo>,
    pub upgrade_info: Option<Item>,
    pub ispins_info: Option<FusionInfo>,
    pub machine_revolution_info: Option<FusionInfo>,
    pub dimension_cloister_info: Option<FusionInfo>,
    pub bakal_info: Option<FusionInfo>,
}

/// An enchantment.
#[derive(Debug, Clone)]
pub struct Enchant {
    pub explain: Option<String>,
    pub status: Option<Status>,
    pub reinforce_skill: Option<Vec<ReinforceSkill>>,
}

/// Fusion options of an item.
#[derive(Debug, Clone)]
pub struct FusionInfo {
    pub options: Vec<FusionOption>,
}

/// One fusion option.
#[derive(Debug, Clone)]
pub struct FusionOption {
    pub damage: u16,
    pub buff: u16,
    pub explain: String,
    pub explain_detail: String,
}

/// An avatar worn by a character.
#[derive(Debug, Clone)]
pub struct Avatar {
    pub slot: Slot,
    pub item: ItemWithRarity,
    pub clone: Option<Item>,
    pub random: Option<Item>,
    pub option_ability: Option<String>,
    pub emblems: Vec<Emblem>,
}

/// An emblem set in an avatar.
#[derive(Debug, Clone)]
pub struct Emblem {
    pub slot_no: u8,
    pub slot_color: String,
    pub item_name: String,
    pub item_rarity: ItemRarity,
}

/// A creature.
#[derive(Debug, Clone)]
pub struct Creature {
    pub item: ItemWithRarity,
    pub clone: Option<Item>,
    pub artifacts: Vec<Artifact>,
}

/// The clone of a creature, when there is one.
#[derive(Debug, Clone)]
pub struct CreatureClone {
    pub item_id: Option<String>,
    pub item_name: Option<String>,
}

/// An artifact of a creature.
#[derive(Debug, Clone)]
pub struct Artifact {
    pub slot_color: String,
    pub item_name: String,
    pub item_available_level: u8,
    pub item_rarity: ItemRarity,
}

/// A flag.
#[derive(Debug, Clone)]
pub struct Flag {
    pub item: ItemWithRarity,
    pub reinforce: u8,
    pub reinforce_status: Status,
    pub gems: Vec<Gem>,
}

/// A gem set in a flag.
#[derive(Debug, Clone)]
pub struct Gem {
    pub slot_no: u8,
    pub item: ItemWithRarity,
}

/// A rune set in a talisman.
#[derive(Debug, Clone)]
pub struct Rune {
    pub slot_no: u8,
    pub item: Item,
}

/// A talisman with its runes.
#[derive(Debug, Clone)]
pub struct Talisman {
    pub slot_no: u8,
    pub item: Item,
    pub runes: Vec<Rune>,
}

/// The skill block of a character.
#[derive(Debug, Clone)]
pub struct SkillStyleOuter {
    pub style: SkillStyle,
}

/// Active and passive skills.
#[derive(Debug, Clone)]
pub struct SkillStyle {
    pub active: Vec<Skill>,
    pub passive: Vec<Skill>,
}

/// A skill.
#[derive(Debug, Clone)]
pub struct Skill {
    pub id: String,
    pub name: String,
    pub level: u8,
    pub required_level: u8,
    pub cost_type: SkillCostType,
}

/// The period a timeline covers.
#[derive(Debug, Clone)]
pub struct TimelineDate {
    pub start: DateTime,
    pub end: DateTime,
}

/// One timeline event; `data` is its JSON object as text.
#[derive(Debug, Clone)]
pub struct TimelineRow {
    pub code: u16,
    pub name: String,
    pub date: String,
    pub data: String,
}

/// A page of a character timeline.
#[derive(Debug, Clone)]
pub struct Timeline {
    pub date: TimelineDate,
    pub next: Option<String>,
    pub rows: Vec<TimelineRow>,
}

/// Buff enhancement of a character: the buff skill and what enhances it.
#[derive(Debug, Clone)]
pub struct BuffEnhance {
    pub skill: Option<SkillInfo>,
    pub equipments: Option<Vec<Equipment>>,
    pub avatars: Option<Vec<Avatar>>,
    pub creature: Option<Creature>,
}

/// A buff skill.
#[derive(Debug, Clone)]
pub struct SkillInfo {
    pub id: String,
    pub name: String,
    pub option: SkillOption,
}

/// Level and description of a buff skill; `desc` is a template filled from `values`.
#[derive(Debug, Clone)]
pub struct SkillOption {
    pub level: u8,
    pub desc: String,
    pub values: Vec<String>,
}

/// An item named by id and name.
#[derive(Debug, Clone)]
pub struct Item {
    pub id: String,
    pub name: String,
}

/// An item with its rarity.
#[derive(Debug, Clone)]
pub struct ItemWithRarity {
    pub id: String,
    pub name: String,
    pub rarity: ItemRarity,
}

/// An item with its rarity, type, level and upgrades.
#[derive(Debug, Clone)]
pub struct ItemExt {
    pub id: String,
    pub name: String,
    pub rarity: ItemRarity,
    pub item_type: ItemType,
    pub refine: u8,
    pub reinforce: u8,
    pub amplification_name: Amplification,
    pub available_level: u8,
}

/// An item found by a search.
#[derive(Debug, Clone)]
pub struct SearchItem {
    pub id: String,
    pub name: String,
    pub rarity: ItemRarity,
    pub item_type: ItemType,
    pub available_level: u8,
}

/// The type of an item.
#[derive(Debug, Clone)]
pub struct ItemType {
    pub id: String,
    pub name: String,
    pub detail: ItemTypeDetail,
}

/// The detailed type of an item.
#[derive(Debug, Clone)]
pub struct ItemTypeDetail {
    pub id: String,
    pub name: String,
}

/// The details of an item.
#[derive(Debug, Clone)]
pub struct ItemInfo {
    pub id: String,
    pub name: String,
    pub rarity: ItemRarity,
    pub item_type: ItemType,
    pub available_level: u8,
    pub explain: Explain,
    pub flavor_text: String,
    pub obtain_info: ObtainInfo,
    pub set: Option<ItemSet>,
    pub status: Status,
    pub grow_info: Option<GrowInfo>,
    pub hashtags: Option<Vec<String>>,
    pub reinforce_skill: Option<Vec<ReinforceSkill>>,
}

/// The explanation of an item.
#[derive(Debug, Clone)]
pub struct Explain {
    pub value: String,
    pub detail: String,
}

/// Where an item is obtained.
#[derive(Debug, Clone)]
pub struct ObtainInfo {
    pub dungeon: Option<Vec<DungeonObtainInfo>>,
    pub shop: Option<Vec<ShopObtainInfo>>,
    pub etc: Option<Vec<EtcObtainInfo>>,
}

/// Dungeons of one kind that drop an item.
#[derive(Debug, Clone)]
pub struct DungeonObtainInfo {
    pub dungeon_type: String,
    pub dungeons: Vec<String>,
}

/// A shop that sells an item.
#[derive(Debug, Clone)]
pub struct ShopObtainInfo {
    pub name: String,
    pub details: Vec<String>,
}

/// Other sources of an item.
#[derive(Debug, Clone)]
pub struct EtcObtainInfo {
    pub name: String,
    pub rows: Vec<EtcObtainInfoRow>,
}

/// One other source of an item.
#[derive(Debug, Clone)]
pub struct EtcObtainInfoRow {
    pub name: String,
    pub details: Option<Vec<String>>,
}

/// The set an item belongs to.
#[derive(Debug, Clone)]
pub struct ItemSet {
    pub id: String,
    pub name: String,
}

/// Skills of one job that an item reinforces.
#[derive(Debug, Clone)]
pub struct ReinforceSkill {
    pub job: Job,
    pub skills: Vec<ReinforceSkillInfo>,
}

/// A reinforced skill and by how many levels.
#[derive(Debug, Clone)]
pub struct ReinforceSkillInfo {
    pub id: String,
    pub name: String,
    pub value: u8,
}

/// Growth of an item.
#[derive(Debug, Clone)]
pub struct GrowInfo {
    pub transfer: Option<bool>,
    pub total: GrowTotal,
    pub options: Vec<GrowOption>,
}

/// Total growth of an item.
#[derive(Debug, Clone)]
pub struct GrowTotal {
    pub damage: i32,
    pub buff: i32,
    pub level: i32,
}

/// One growth option; `exp_rate` is the decimal text the API wrote.
#[derive(Debug, Clone)]
pub struct GrowOption {
    pub level: u8,
    pub exp_rate: String,
    pub damage: i32,
    pub buff: i32,
    pub explain: String,
    pub explain_detail: String,
    pub default: Option<GrowOptionDefault>,
    pub transfer: Option<bool>,
}

/// Default values of a growth option.
#[derive(Debug, Clone)]
pub struct GrowOptionDefault {
    pub damage: i32,
    pub buff: i32,
}

/// An item on sale at the auction house.
#[derive(Debug, Clone)]
pub struct AuctionItem {
    pub no: u32,
    pub reg_date: OffsetDateTime,
    pub expire_date: OffsetDateTime,
    pub item: ItemExt,
    pub adventure_fame: u32,
    pub count: u32,
    pub current_price: u32,
    pub unit_price: u32,
    pub average_price: u32,
}

/// An item sold at the auction house.
#[derive(Debug, Clone)]
pub struct AuctionSoldItem {
    pub sold_date: OffsetDateTime,
    pub item: ItemExt,
    pub count: u32,
    pub price: u32,
    pub unit_price: u32,
}

/// A date and time with its offset from UTC in seconds.
#[derive(Debug, Clone, Copy, PartialEq, Eq, Structural)]
pub struct OffsetDateTime {
    pub local: DateTime,
    pub offset_seconds: i32,
}

} // verus!
