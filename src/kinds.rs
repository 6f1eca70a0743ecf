//! The game's enumerations shared by requests and responses: servers,
//! item rarities and amplification kinds.

use vstd::prelude::*;

use crate::text::{push_text, text_eq};

verus! {

/// A game server; `All` searches every server.
#[derive(Debug, Clone, Copy, PartialEq, Eq, Structural)]
pub enum Server {
    All,
    Anton,
    Bakal,
    Cain,
    Casillas,
    Diregie,
    Hilder,
    Prey,
    Siroco,
}

/// The server id used in paths.
pub open spec fn server_text(s: Server) -> Seq<char> {
    match s {
        Server::All => "all"@,
        Server::Anton => "anton"@,
        Server::Bakal => "bakal"@,
        Server::Cain => "cain"@,
        Server::Casillas => "casillas"@,
        Server::Diregie => "diregie"@,
        Server::Hilder => "hilder"@,
        Server::Prey => "prey"@,
        Server::Siroco => "siroco"@,
    }
}

impl Server {
    /// The server id used in paths, e.g. `"cain"`.
    pub fn as_str(&self) -> (r: &'static str)
        ensures
            r@ == server_text(*self),
    {
        match self {
            Server::All => "all",
            Server::Anton => "anton",
            Server::Bakal => "bakal",
            Server::Cain => "cain",
            Server::Casillas => "casillas",
            Server::Diregie => "diregie",
            Server::Hilder => "hilder",
            Server::Prey => "prey",
            Server::Siroco => "siroco",
        }
    }

    /// Reads a server from its id; any other text is refused.
    pub fn from_id(s: &str) -> (r: Option<Server>)
        ensures
            r matches Some(x) ==> server_text(x) == s@,
            r is None ==> forall|x: Server| server_text(x) != s@,
    {
        if text_eq(s, "all") {
            return Some(Server::All);
        }
        if text_eq(s, "anton") {
            return Some(Server::Anton);
        }
        if text_eq(s, "bakal") {
            return Some(Server::Bakal);
        }
        if text_eq(s, "cain") {
            return Some(Server::Cain);
        }
        if text_eq(s, "casillas") {
            return Some(Server::Casillas);
        }
        if text_eq(s, "diregie") {
            return Some(Server::Diregie);
        }
        if text_eq(s, "hilder") {
            return Some(Server::Hilder);
        }
        if text_eq(s, "prey") {
            return Some(Server::Prey);
        }
        if text_eq(s, "siroco") {
            return Some(Server::Siroco);
        }
        assert forall|x: Server| server_text(x) != s@ by {
            match x {
                Server::All => {},
                Server::Anton => {},
                Server::Bakal => {},
                Server::Cain => {},
                Server::Casillas => {},
                Server::Diregie => {},
                Server::Hilder => {},
                Server::Prey => {},
                Server::Siroco => {},
            }
        }
        None
    }
}

/// Item rarity, from the lowest to the highest.
#[derive(Debug, Clone, Copy, PartialEq, Eq, PartialOrd, Ord, Structural)]
pub enum ItemRarity {
    Common,
    Uncommon,
    Rare,
    Unique,
    Chronicle,
    Legendary,
    Epic,
    Mythic,
}

/// The name of a rarity as the API writes it.
pub open spec fn rarity_text(r: ItemRarity) -> Seq<char> {
    match r {
        ItemRarity::Common => "커먼"@,
        ItemRarity::Uncommon => "언커먼"@,
        ItemRarity::Rare => "레어"@,
        ItemRarity::Unique => "유니크"@,
        ItemRarity::Chronicle => "크로니클"@,
        ItemRarity::Legendary => "레전더리"@,
        ItemRarity::Epic => "에픽"@,
        ItemRarity::Mythic => "신화"@,
    }
}

/// `s` names some rarity.
pub open spec fn is_rarity_name(s: Seq<char>) -> bool {
    exists|r: ItemRarity| rarity_text(r) == s
}

impl ItemRarity {
    /// The name as the API writes it, e.g. `"에픽"`.
    pub fn as_str(&self) -> (r: &'static str)
        ensures
            r@ == rarity_text(*self),
    {
        match self {
            ItemRarity::Common => "커먼",
            ItemRarity::Uncommon => "언커먼",
            ItemRarity::Rare => "레어",
            ItemRarity::Unique => "유니크",
            ItemRarity::Chronicle => "크로니클",
            ItemRarity::Legendary => "레전더리",
            ItemRarity::Epic => "에픽",
            ItemRarity::Mythic => "신화",
        }
    }

    /// Reads a rarity from its name; any other text is refused with
    /// `unknown rarity: <text>`.
    pub fn from_str(s: &str) -> (r: Result<ItemRarity, String>)
        ensures
            r matches Ok(x) ==> rarity_text(x) == s@,
            r is Err ==> !is_rarity_name(s@),
            r matches Err(m) ==> m@ == "unknown rarity: "@ + s@,
    {
        if text_eq(s, "커먼") {
            return Ok(ItemRarity::Common);
        }
        if text_eq(s, "언커먼") {
            return Ok(ItemRarity::Uncommon);
        }
        if text_eq(s, "레어") {
            return Ok(ItemRarity::Rare);
        }
        if text_eq(s, "유니크") {
            return Ok(ItemRarity::Unique);
        }
        if text_eq(s, "크로니클") {
            return Ok(ItemRarity::Chronicle);
        }
        if text_eq(s, "레전더리") {
            return Ok(ItemRarity::Legendary);
        }
        if text_eq(s, "에픽") {
            return Ok(ItemRarity::Epic);
        }
        if text_eq(s, "신화") {
            return Ok(ItemRarity::Mythic);
        }
        assert forall|x: ItemRarity| rarity_text(x) != s@ by {
            match x {
                ItemRarity::Common => {},
                ItemRarity::Uncommon => {},
                ItemRarity::Rare => {},
                ItemRarity::Unique => {},
                ItemRarity::Chronicle => {},
                ItemRarity::Legendary => {},
                ItemRarity::Epic => {},
                ItemRarity::Mythic => {},
            }
        }
        let mut m = String::new();
        push_text(&mut m, "unknown rarity: ");
        push_text(&mut m, s);
        Err(m)
    }
}

/// Dimensional amplification of an item; `Unamplified` when not amplified.
#[derive(Debug, Clone, Copy, PartialEq, Eq, Structural)]
pub enum Amplification {
    Unamplified,
    Strength,
    Intelligence,
    Vitality,
    Spirit,
}

/// The name of an amplification as the API writes it; `Unamplified` has none.
pub open spec fn amplification_name(a: Amplification) -> Option<Seq<char>> {
    match a {
        Amplification::Unamplified => None,
        Amplification::Strength => Some("차원의 힘"@),
        Amplification::Intelligence => Some("차원의 지능"@),
        Amplification::Vitality => Some("차원의 체력"@),
        Amplification::Spirit => Some("차원의 정신력"@),
    }
}

/// `s` names some amplification.
pub open spec fn is_amplification_name(s: Seq<char>) -> bool {
    exists|a: Amplification| amplification_name(a) == Some(s)
}

impl Amplification {
    /// The name as the API writes it, or `None` when not amplified.
    pub fn name(&self) -> (r: Option<&'static str>)
        ensures
            r matches Some(t) ==> amplification_name(*self) == Some(t@),
            r is None <==> amplification_name(*self) is None,
    {
        match self {
            Amplification::Unamplified => None,
            Amplification::Strength => Some("차원의 힘"),
            Amplification::Intelligence => Some("차원의 지능"),
            Amplification::Vitality => Some("차원의 체력"),
            Amplification::Spirit => Some("차원의 정신력"),
        }
    }

    /// The name as displayed: empty for no amplification.
    pub fn as_str(&self) -> (r: &'static str)
        ensures
            amplification_name(*self) matches Some(t) ==> r@ == t,
            *self == Amplification::Unamplified ==> r@ == ""@,
    {
        match self {
            Amplification::Unamplified => "",
            Amplification::Strength => "차원의 힘",
            Amplification::Intelligence => "차원의 지능",
            Amplification::Vitality => "차원의 체력",
            Amplification::Spirit => "차원의 정신력",
        }
    }

    /// Reads an amplification from its optional name: no name is `Unamplified`,
    /// an unknown name is refused with `invalid amplification: <name>`.
    pub fn from_name(name: Option<&str>) -> (r: Result<Amplification, String>)
        ensures
            name is None ==> r == Ok::<Amplification, String>(Amplification::Unamplified),
            name matches Some(s) ==> (r matches Ok(a) ==> amplification_name(a) == Some(s@)),
            name matches Some(s) ==> (r is Err <==> !is_amplification_name(s@)),
            name matches Some(s) ==> (r matches Err(m) ==> m@ == "invalid amplification: "@ + s@),
    {
        match name {
            None => Ok(Amplification::Unamplified),
            Some(s) => {
                if text_eq(s, "차원의 힘") {
                    return Ok(Amplification::Strength);
                }
                if text_eq(s, "차원의 지능") {
                    return Ok(Amplification::Intelligence);
                }
                if text_eq(s, "차원의 체력") {
                    return Ok(Amplification::Vitality);
                }
                if text_eq(s, "차원의 정신력") {
                    return Ok(Amplification::Spirit);
                }
                assert forall|a: Amplification| amplification_name(a) != Some(s@) by {
                    match a {
                        Amplification::Unamplified => {},
                        Amplification::Strength => {},
                        Amplification::Intelligence => {},
                        Amplification::Vitality => {},
                        Amplification::Spirit => {},
                    }
                }
                let mut m = String::new();
                push_text(&mut m, "invalid amplification: ");
                push_text(&mut m, s);
                Err(m)
            },
        }
    }
}

/// The kind of points a skill costs.
#[derive(Debug, Clone, Copy, PartialEq, Eq, Structural)]
pub enum SkillCostType {
    SP,
    TP,
}

} // verus!
