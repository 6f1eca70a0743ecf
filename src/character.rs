//! Character search, per-character lookups, timeline parameters and the
//! combination of the three buff-enhancement lookups.

use vstd::prelude::*;

use crate::date::DateTime;
use crate::error::{Error, InvalidQueryParameter};
use crate::kinds::{server_text, Server};
use crate::laws::{
    all_set, distinct_keys, in_declared_order, lemma_all_set_once, lemma_all_set_present,
    lemma_declared_order, lemma_set_fields_once, lemma_unset_fields_omitted, omits_unset,
    pairs_carry_values, round_trips, set_fields_once,
};
use crate::model::{BuffEnhance, Character, CharacterBuffEnhance};
use crate::query::{
    fields_view, pairs_view, present, present_pairs, text_field, text_value, u8_field, u8_value,
    word_type_field, word_type_value, FieldView, WordType,
};
use crate::request::Request;
use crate::text::push_text;
use crate::url::{law_encoded_name_decodes, percent_decode, url_encode, url_encoded};

verus! {

/// Parameters of a character search. `server` and `name` go into the URL,
/// the other fields are query pairs.
#[derive(Debug, Clone)]
pub struct CharacterSearchParameter {
    pub server: Server,
    pub name: String,
    pub job_id: Option<String>,
    pub job_grow_id: Option<String>,
    pub word_type: Option<WordType>,
    pub limit: Option<u8>,
}

impl CharacterSearchParameter {

    /// The declared fields, in order, with the values of those that are set.
    pub open spec fn spec_fields(&self) -> Seq<FieldView> {
        seq![
            ("jobId"@, text_value(self.job_id)),
            ("jobGrowId"@, text_value(self.job_grow_id)),
            ("wordType"@, word_type_value(self.word_type)),
            ("limit"@, u8_value(self.limit)),
        ]
    }

    /// The declared fields, in order, with the values of those that are set.
    pub fn fields(&self) -> (r: Vec<(&'static str, Option<String>)>)
        ensures
            fields_view(r@) == self.spec_fields(),
    {
        let r = vec![
            ("jobId", text_field(&self.job_id)),
            ("jobGrowId", text_field(&self.job_grow_id)),
            ("wordType", word_type_field(self.word_type)),
            ("limit", u8_field(self.limit)),
        ];
        assert(fields_view(r@) =~= self.spec_fields());
        r
    }

    /// No two fields share a key.
    pub proof fn lemma_distinct_keys(&self)
        ensures
            distinct_keys(self.spec_fields()),
    {
        reveal_strlit("jobId");
        reveal_strlit("jobGrowId");
        reveal_strlit("wordType");
        reveal_strlit("limit");
        assert("jobId"@.len() != "jobGrowId"@.len());
        assert("jobId"@.len() != "wordType"@.len());
        assert("jobId"@[0] != "limit"@[0]);
        assert("jobGrowId"@.len() != "wordType"@.len());
        assert("jobGrowId"@.len() != "limit"@.len());
        assert("wordType"@.len() != "limit"@.len());
    }

    /// The query pairs of the set fields, in declared order.
    pub fn query_pairs(&self) -> (r: Vec<(String, String)>)
        ensures
            pairs_view(r@) == present(self.spec_fields()),
    {
        let f = self.fields();
        present_pairs(&f)
    }

    /// All servers, no name, nothing else set.
    pub open spec fn spec_is_default(&self) -> bool {
        &&& self.server == Server::All && self.name@.len() == 0
        &&& self.job_id is None && self.job_grow_id is None
        &&& self.word_type is None && self.limit is None
    }
}

impl Default for CharacterSearchParameter {
    fn default() -> (r: CharacterSearchParameter)
        ensures
            r.spec_is_default(),
    {
        CharacterSearchParameter {
            server: Server::All,
            name: String::new(),
            job_id: None,
            job_grow_id: None,
            word_type: None,
            limit: None,
        }
    }
}

/// Message of a character search without a name.
pub const NAME_REQUIRED: &'static str = "`characterName` must be specified.";

/// `/servers/<server>/characters`
pub open spec fn characters_path(server: Server) -> Seq<char> {
    "/servers/"@ + server_text(server) + "/characters"@
}

/// `/servers/<server>/characters/<id>/<dst>`
pub open spec fn character_path(server: Server, id: Seq<char>, dst: Seq<char>) -> Seq<char> {
    characters_path(server) + "/"@ + id + "/"@ + dst
}

fn push_characters_path(s: &mut String, server: Server)
    ensures
        final(s)@ == old(s)@ + characters_path(server),
{
    push_text(s, "/servers/");
    push_text(s, server.as_str());
    push_text(s, "/characters");
    assert(final(s)@ =~= old(s)@ + characters_path(server));
}

/// Builder of character searches. Setters store one field each; nothing
/// is checked until a request is made.
#[derive(Debug, Clone)]
pub struct CharacterHandler {
    pub param: CharacterSearchParameter,
}

impl CharacterHandler {
    /// A builder with nothing set.
    pub fn new() -> (r: CharacterHandler)
        ensures
            r.param.spec_is_default(),
    {
        CharacterHandler { param: CharacterSearchParameter::default() }
    }

    /// The request of a search by name: the name is percent-encoded into
    /// the path by hand, and a search without a name is refused.
    pub fn search_request(&self) -> (r: Result<Request, Error>)
        ensures
            self.param.name@.len() > 0 <==> r is Ok,
            r matches Ok(q) ==> q.path@ == characters_path(self.param.server) + "?characterName="@
                + url_encoded(self.param.name@) && q.query_view() == present(
                self.param.spec_fields(),
            ),
            r matches Err(e) ==> (e matches Error::InvalidQueryParameter(v) && v.path@
                == characters_path(self.param.server) && v.message@ == NAME_REQUIRED@),
    {
        let mut path = String::new();
        push_characters_path(&mut path, self.param.server);
        if self.param.name.as_str().is_empty() {
            return Err(
                Error::InvalidQueryParameter(
                    InvalidQueryParameter { path, message: NAME_REQUIRED.to_owned() },
                ),
            );
        }
        push_text(&mut path, "?characterName=");
        let enc = url_encode(self.param.name.as_str());
        push_text(&mut path, enc.as_str());
        Ok(Request { path, query: self.param.query_pairs() })
    }

    /// Names the character.
    pub fn name(&mut self, character_name: &str) -> (r: &mut Self)
        ensures
            r.param == (CharacterSearchParameter { name: r.param.name, ..old(self).param }),
            r.param.name@ == character_name@,
            *final(self) == *final(r),
    {
        self.param.name = character_name.to_owned();
        self
    }

    /// Sets the server searched.
    pub fn server(&mut self, server: Server) -> (r: &mut Self)
        ensures
            r.param == (CharacterSearchParameter { server: server, ..old(self).param }),
            *final(self) == *final(r),
    {
        self.param.server = server;
        self
    }

    /// Restricts the search to a job.
    pub fn job_id(&mut self, job_id: &str) -> (r: &mut Self)
        ensures
            r.param == (CharacterSearchParameter { job_id: r.param.job_id, ..old(self).param }),
            r.param.job_id matches Some(j) && j@ == job_id@,
            *final(self) == *final(r),
    {
        self.param.job_id = Some(job_id.to_owned());
        self
    }

    /// Restricts the search to a job advancement.
    pub fn job_grow_id(&mut self, job_grow_id: &str) -> (r: &mut Self)
        ensures
            r.param == (CharacterSearchParameter { job_grow_id: r.param.job_grow_id, ..old(self).param }),
            r.param.job_grow_id matches Some(j) && j@ == job_grow_id@,
            *final(self) == *final(r),
    {
        self.param.job_grow_id = Some(job_grow_id.to_owned());
        self
    }

    /// Sets the maximum number of rows.
    pub fn limit(&mut self, limit: u8) -> (r: &mut Self)
        ensures
            r.param == (CharacterSearchParameter { limit: Some(limit), ..old(self).param }),
            *final(self) == *final(r),
    {
        self.param.limit = Some(limit);
        self
    }

    /// Sets how the name is matched.
    pub fn word_type(&mut self, word_type: WordType) -> (r: &mut Self)
        ensures
            r.param == (CharacterSearchParameter { word_type: Some(word_type), ..old(self).param }),
            *final(self) == *final(r),
    {
        self.param.word_type = Some(word_type);
        self
    }

    /// Lookups of a character found by a search.
    pub fn of(&self, character: &Character) -> (r: SpecificCharacterHandler)
        ensures
            r.server == character.server && r.character_id@ == character.id@,
    {
        self._of(character.server, character.id.as_str())
    }

    /// Lookups of the character with the given server and id.
    pub fn _of(&self, server: Server, character_id: &str) -> (r: SpecificCharacterHandler)
        ensures
            r.server == server && r.character_id@ == character_id@,
    {
        SpecificCharacterHandler::new(server, character_id)
    }
}

/// Lookups of one character.
#[derive(Debug, Clone)]
pub struct SpecificCharacterHandler {
    pub server: Server,
    pub character_id: String,
}

impl SpecificCharacterHandler {
    pub fn new(server: Server, character_id: &str) -> (r: SpecificCharacterHandler)
        ensures
            r.server == server && r.character_id@ == character_id@,
    {
        SpecificCharacterHandler { server, character_id: character_id.to_owned() }
    }

    /// Lookups of the character's buff enhancement.
    pub fn buff(&self) -> (r: SpecificCharacterBuffHandler)
        ensures
            r.handler.server == self.server && r.handler.character_id@ == self.character_id@,
    {
        SpecificCharacterBuffHandler {
            handler: SpecificCharacterHandler::new(self.server, self.character_id.as_str()),
        }
    }

    /// The path of the lookup `dst` of this character.
    pub fn get(&self, dst: &str) -> (r: String)
        ensures
            r@ == character_path(self.server, self.character_id@, dst@),
    {
        let mut s = String::new();
        push_characters_path(&mut s, self.server);
        push_text(&mut s, "/");
        push_text(&mut s, self.character_id.as_str());
        push_text(&mut s, "/");
        push_text(&mut s, dst);
        assert(s@ =~= character_path(self.server, self.character_id@, dst@));
        s
    }

    /// A lookup without query pairs.
    fn plain(&self, dst: &str) -> (r: Request)
        ensures
            r.path@ == character_path(self.server, self.character_id@, dst@),
            r.query@.len() == 0,
    {
        Request { path: self.get(dst), query: Vec::new() }
    }

    /// The request of the character's basic information.
    pub fn info_request(&self) -> (r: Request)
        ensures
            r.path@ == character_path(self.server, self.character_id@, ""@),
            r.query@.len() == 0,
    {
        self.plain("")
    }

    /// The request of the character's timeline, with the given parameters.
    pub fn timeline_request(&self, param: Option<&TimelineParameter>) -> (r: Request)
        ensures
            r.path@ == characters_path(self.server) + "/"@ + self.character_id@ + "/timeline"@,
            param matches Some(p) ==> r.query_view() == present(p.spec_fields()),
            param is None ==> r.query@.len() == 0,
    {
        let mut path = String::new();
        push_characters_path(&mut path, self.server);
        push_text(&mut path, "/");
        push_text(&mut path, self.character_id.as_str());
        push_text(&mut path, "/timeline");
        let query = match param {
            Some(p) => p.query_pairs(),
            None => Vec::new(),
        };
        Request { path, query }
    }

    /// The request of the character's equipment.
    pub fn equipments_request(&self) -> (r: Request)
        ensures
            r.path@ == character_path(self.server, self.character_id@, "equip/equipment"@),
            r.query@.len() == 0,
    {
        self.plain("equip/equipment")
    }

    /// The request of the character's avatars.
    pub fn avatars_request(&self) -> (r: Request)
        ensures
            r.path@ == character_path(self.server, self.character_id@, "equip/avatar"@),
            r.query@.len() == 0,
    {
        self.plain("equip/avatar")
    }

    /// The request of the character's creature.
    pub fn creature_request(&self) -> (r: Request)
        ensures
            r.path@ == character_path(self.server, self.character_id@, "equip/creature"@),
            r.query@.len() == 0,
    {
        self.plain("equip/creature")
    }

    /// The request of the character's flag.
    pub fn flag_request(&self) -> (r: Request)
        ensures
            r.path@ == character_path(self.server, self.character_id@, "equip/flag"@),
            r.query@.len() == 0,
    {
        self.plain("equip/flag")
    }

    /// The request of the character's talismans.
    pub fn talismans_request(&self) -> (r: Request)
        ensures
            r.path@ == character_path(self.server, self.character_id@, "equip/talisman"@),
            r.query@.len() == 0,
    {
        self.plain("equip/talisman")
    }
}

/// Lookups of one character's buff enhancement: by equipment, by avatar
/// and by creature.
#[derive(Debug, Clone)]
pub struct SpecificCharacterBuffHandler {
    pub handler: SpecificCharacterHandler,
}

/// The path of the buff lookup `dst`.
pub open spec fn buff_path(h: SpecificCharacterHandler, dst: Seq<char>) -> Seq<char> {
    character_path(h.server, h.character_id@, "skill/buff/equip/"@ + dst)
}

impl SpecificCharacterBuffHandler {
    pub fn new(handler: SpecificCharacterHandler) -> (r: SpecificCharacterBuffHandler)
        ensures
            r.handler == handler,
    {
        SpecificCharacterBuffHandler { handler }
    }

    /// The request of the buff lookup `dst`.
    pub fn get(&self, dst: &str) -> (r: Request)
        ensures
            r.path@ == buff_path(self.handler, dst@),
            r.query@.len() == 0,
    {
        let mut d = "skill/buff/equip/".to_owned();
        push_text(&mut d, dst);
        Request { path: self.handler.get(d.as_str()), query: Vec::new() }
    }

    /// The buff lookup by equipment; its avatars and creature are absent.
    pub fn equipments_request(&self) -> (r: Request)
        ensures
            r.path@ == buff_path(self.handler, "equipment"@),
            r.query@.len() == 0,
    {
        self.get("equipment")
    }

    /// The buff lookup by avatar; its equipment and creature are absent.
    pub fn avatars_request(&self) -> (r: Request)
        ensures
            r.path@ == buff_path(self.handler, "avatar"@),
            r.query@.len() == 0,
    {
        self.get("avatar")
    }

    /// The buff lookup by creature; its equipment and avatars are absent.
    pub fn creature_request(&self) -> (r: Request)
        ensures
            r.path@ == buff_path(self.handler, "creature"@),
            r.query@.len() == 0,
    {
        self.get("creature")
    }

    /// Combines the results of the three buff lookups (see [`combine_buffs`]).
    pub fn all<E>(
        &self,
        equipments: Result<CharacterBuffEnhance, E>,
        avatars: Result<CharacterBuffEnhance, E>,
        creature: Result<CharacterBuffEnhance, E>,
    ) -> (r: Result<CharacterBuffEnhance, E>)
        ensures
            r == combined(equipments, avatars, creature),
    {
        combine_buffs(equipments, avatars, creature)
    }
}

/// The avatars that a buff lookup found.
pub open spec fn avatars_of(a: CharacterBuffEnhance) -> Option<Vec<crate::model::Avatar>> {
    match a.buff {
        Some(b) => b.avatars,
        None => None,
    }
}

/// The creature that a buff lookup found.
pub open spec fn creature_of(c: CharacterBuffEnhance) -> Option<crate::model::Creature> {
    match c.buff {
        Some(b) => b.creature,
        None => None,
    }
}

/// The equipment result with the avatars and the creature of the other two
/// filled in; unchanged when it has no buff.
pub open spec fn merged(
    e: CharacterBuffEnhance,
    a: CharacterBuffEnhance,
    c: CharacterBuffEnhance,
) -> CharacterBuffEnhance {
    match e.buff {
        None => e,
        Some(b) => CharacterBuffEnhance {
            buff: Some(BuffEnhance { avatars: avatars_of(a), creature: creature_of(c), ..b }),
            ..e
        },
    }
}

/// The first failure among the three results, in the order equipment,
/// avatar, creature; the merge when none failed.
pub open spec fn combined<E>(
    e: Result<CharacterBuffEnhance, E>,
    a: Result<CharacterBuffEnhance, E>,
    c: Result<CharacterBuffEnhance, E>,
) -> Result<CharacterBuffEnhance, E> {
    match e {
        Err(x) => Err(x),
        Ok(ev) => match a {
            Err(x) => Err(x),
            Ok(av) => match c {
                Err(x) => Err(x),
                Ok(cv) => Ok(merged(ev, av, cv)),
            },
        },
    }
}

/// Combines the three buff lookups: fails with the first failure, and
/// otherwise merges the avatars and the creature into the equipment result.
pub fn combine_buffs<E>(
    e: Result<CharacterBuffEnhance, E>,
    a: Result<CharacterBuffEnhance, E>,
    c: Result<CharacterBuffEnhance, E>,
) -> (r: Result<CharacterBuffEnhance, E>)
    ensures
        r == combined(e, a, c),
{
    let e = match e {
        Ok(v) => v,
        Err(x) => return Err(x),
    };
    let a = match a {
        Ok(v) => v,
        Err(x) => return Err(x),
    };
    let c = match c {
        Ok(v) => v,
        Err(x) => return Err(x),
    };
    let avatars = match a.buff {
        Some(b) => b.avatars,
        None => None,
    };
    let creature = match c.buff {
        Some(b) => b.creature,
        None => None,
    };
    let CharacterBuffEnhance { id, name, level, job, job_grow, adventure_name, guild, buff } = e;
    let buff = match buff {
        None => None,
        Some(b) => {
            let BuffEnhance { skill, equipments, avatars: _, creature: _ } = b;
            Some(BuffEnhance { skill, equipments, avatars, creature })
        },
    };
    Ok(CharacterBuffEnhance { id, name, level, job, job_grow, adventure_name, guild, buff })
}

/// A failed lookup fails the combination with the first failure, and no
/// partial merge is returned.
pub proof fn law_buff_failure_wins<E>(
    e: Result<CharacterBuffEnhance, E>,
    a: Result<CharacterBuffEnhance, E>,
    c: Result<CharacterBuffEnhance, E>,
)
    ensures
        e matches Err(x) ==> combined(e, a, c) == Err::<CharacterBuffEnhance, E>(x),
        e is Ok ==> (a matches Err(x) ==> combined(e, a, c) == Err::<CharacterBuffEnhance, E>(
            x,
        )),
        e is Ok && a is Ok ==> (c matches Err(x) ==> combined(e, a, c) == Err::<
            CharacterBuffEnhance,
            E,
        >(x)),
        combined(e, a, c) is Ok <==> (e is Ok && a is Ok && c is Ok),
{
}

/// A date field, written `YYYY-MM-DD HH:MM`.
pub open spec fn date_value(o: Option<DateTime>) -> Option<Seq<char>> {
    match o {
        Some(d) => Some(d.minutes_text()),
        None => None,
    }
}

fn date_field(o: &Option<DateTime>) -> (r: Option<String>)
    ensures
        text_value(r) == date_value(*o),
{
    match o {
        Some(d) => Some(d.format_minutes()),
        None => None,
    }
}

/// Parameters of a timeline lookup.
#[derive(Debug, Clone)]
pub struct TimelineParameter {
    pub start_date: Option<DateTime>,
    pub end_date: Option<DateTime>,
    pub limit: Option<u8>,
    pub code: Option<String>,
    pub next: Option<String>,
}

impl TimelineParameter {

    /// The declared fields, in order, with the values of those that are set.
    pub open spec fn spec_fields(&self) -> Seq<FieldView> {
        seq![
            ("startDate"@, date_value(self.start_date)),
            ("endDate"@, date_value(self.end_date)),
            ("limit"@, u8_value(self.limit)),
            ("code"@, text_value(self.code)),
            ("next"@, text_value(self.next)),
        ]
    }

    /// The declared fields, in order, with the values of those that are set.
    pub fn fields(&self) -> (r: Vec<(&'static str, Option<String>)>)
        ensures
            fields_view(r@) == self.spec_fields(),
    {
        let r = vec![
            ("startDate", date_field(&self.start_date)),
            ("endDate", date_field(&self.end_date)),
            ("limit", u8_field(self.limit)),
            ("code", text_field(&self.code)),
            ("next", text_field(&self.next)),
        ];
        assert(fields_view(r@) =~= self.spec_fields());
        r
    }

    /// No two fields share a key.
    pub proof fn lemma_distinct_keys(&self)
        ensures
            distinct_keys(self.spec_fields()),
    {
        reveal_strlit("startDate");
        reveal_strlit("endDate");
        reveal_strlit("limit");
        reveal_strlit("code");
        reveal_strlit("next");
        assert("startDate"@.len() != "endDate"@.len());
        assert("startDate"@.len() != "limit"@.len());
        assert("startDate"@.len() != "code"@.len());
        assert("startDate"@.len() != "next"@.len());
        assert("endDate"@.len() != "limit"@.len());
        assert("endDate"@.len() != "code"@.len());
        assert("endDate"@.len() != "next"@.len());
        assert("limit"@.len() != "code"@.len());
        assert("limit"@.len() != "next"@.len());
        assert("code"@[0] != "next"@[0]);
    }

    /// The query pairs of the set fields, in declared order.
    pub fn query_pairs(&self) -> (r: Vec<(String, String)>)
        ensures
            pairs_view(r@) == present(self.spec_fields()),
    {
        let f = self.fields();
        present_pairs(&f)
    }
}

impl Default for TimelineParameter {
    fn default() -> (r: TimelineParameter)
        ensures
            r.start_date is None && r.end_date is None && r.limit is None && r.code is None
                && r.next is None,
    {
        TimelineParameter { start_date: None, end_date: None, limit: None, code: None, next: None }
    }
}

} // verus!

verus! {

/// Unset fields never appear in the encoding of a character search or a
/// timeline lookup: a key has a pair exactly when its field is set, and a
/// set field has exactly one pair, carrying its value.
pub proof fn law_unset_fields_omitted(p: CharacterSearchParameter, t: TimelineParameter)
    ensures
        omits_unset(p.spec_fields()),
        set_fields_once(p.spec_fields()),
        pairs_carry_values(p.spec_fields()),
        omits_unset(t.spec_fields()),
        set_fields_once(t.spec_fields()),
        pairs_carry_values(t.spec_fields()),
{
    p.lemma_distinct_keys();
    t.lemma_distinct_keys();
    lemma_unset_fields_omitted(p.spec_fields());
    lemma_set_fields_once(p.spec_fields());
    lemma_unset_fields_omitted(t.spec_fields());
    lemma_set_fields_once(t.spec_fields());
}

/// The pairs of a character search or a timeline lookup follow the
/// declared order of their fields, whatever order they were set in.
pub proof fn law_declared_order(p: CharacterSearchParameter, t: TimelineParameter)
    ensures
        in_declared_order(present(p.spec_fields()), p.spec_fields()),
        in_declared_order(present(t.spec_fields()), t.spec_fields()),
{
    p.lemma_distinct_keys();
    t.lemma_distinct_keys();
    lemma_declared_order(p.spec_fields());
    lemma_declared_order(t.spec_fields());
}

/// Round trip of a character search: with every optional field set, each
/// key appears once with its value, and the name percent-encoded into the
/// path decodes back to the name.
pub proof fn law_round_trip(p: CharacterSearchParameter)
    requires
        p.job_id is Some && p.job_grow_id is Some && p.word_type is Some && p.limit is Some,
    ensures
        round_trips(p.spec_fields()),
        vstd::utf8::decode_utf8(percent_decode(url_encoded(p.name@))) == p.name@,
{
    p.lemma_distinct_keys();
    let fl = p.spec_fields();
    assert(all_set(fl));
    lemma_all_set_present(fl);
    lemma_all_set_once(fl);
    law_encoded_name_decodes(p.name@);
}

} // verus!
