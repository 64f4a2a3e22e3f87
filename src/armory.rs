//! The in-memory character and guild directory that identity resolution and
//! the tooltips consult.

use vstd::prelude::*;

verus! {

/// A character's guild membership at one moment of its history.
#[derive(Clone, Copy, Debug, PartialEq, Eq, Structural)]
pub struct CharacterGuild {
    pub guild_id: u32,
    pub rank: u8,
}

/// One recorded state of a character.
#[derive(Clone, Debug)]
pub struct CharacterHistory {
    pub id: u32,
    pub character_name: String,
    pub character_guild: Option<CharacterGuild>,
    pub timestamp: u64,
}

/// A player character known to the directory.
#[derive(Clone, Debug)]
pub struct Character {
    pub id: u32,
    pub server_id: u32,
    /// The character's unit id on its game server.
    pub server_uid: u64,
    pub last_update: Option<CharacterHistory>,
}

/// A guild of one game server.
#[derive(Clone, Debug)]
pub struct Guild {
    pub id: u32,
    pub server_id: u32,
    /// The guild's id on its game server.
    pub server_uid: u64,
    pub name: String,
}

/// A guild as a game server reports it.
#[derive(Clone, Debug)]
pub struct GuildDto {
    pub server_uid: u64,
    pub name: String,
}

/// An arena team.
#[derive(Clone, Debug)]
pub struct ArenaTeam {
    pub id: u32,
    pub server_id: u32,
    pub team_name: String,
}

/// An item as worn by a character, with its enchantments.
#[derive(Clone, Debug)]
pub struct CharacterItemDto {
    pub item_id: u32,
    pub random_property_id: Option<i16>,
    pub enchant_id: Option<u32>,
    pub gem_ids: Vec<Option<u32>>,
}

/// A worn item recorded in the directory.
#[derive(Clone, Debug)]
pub struct CharacterItem {
    pub id: u32,
    pub item_id: u32,
    pub random_property_id: Option<i16>,
    pub enchant_id: Option<u32>,
    pub gem_ids: Vec<Option<u32>>,
}

/// Why a directory operation failed.
#[derive(Clone, Debug, PartialEq, Eq)]
pub enum ArmoryFailure {
    /// The store could not take the record; names the operation.
    Database(String),
    InvalidInput,
}

/// The directory of characters, guilds, arena teams and worn items.
#[derive(Debug)]
pub struct Armory {
    pub characters: Vec<Character>,
    pub guilds: Vec<Guild>,
    pub arena_teams: Vec<ArenaTeam>,
    pub items: Vec<CharacterItem>,
}

/// `i` is the first position of `guilds` with a guild whose id is `id`.
pub open spec fn first_guild_with_id(guilds: Seq<Guild>, id: u32, i: int) -> bool {
    &&& 0 <= i < guilds.len()
    &&& guilds[i].id == id
    &&& forall|k: int| 0 <= k < i ==> #[trigger] guilds[k].id != id
}

/// `guilds` holds a guild whose id is `id`.
pub open spec fn has_guild_with_id(guilds: Seq<Guild>, id: u32) -> bool {
    exists|k: int| 0 <= k < guilds.len() && #[trigger] guilds[k].id == id
}

/// `g` is the guild that server `server_id` knows by `server_uid`.
pub open spec fn guild_matches_uid(g: Guild, server_id: u32, server_uid: u64) -> bool {
    g.server_id == server_id && g.server_uid == server_uid
}

/// `i` is the first position of `guilds` with the guild that server
/// `server_id` knows by `server_uid`.
pub open spec fn first_guild_with_uid(guilds: Seq<Guild>, server_id: u32, server_uid: u64, i: int) -> bool {
    &&& 0 <= i < guilds.len()
    &&& guild_matches_uid(guilds[i], server_id, server_uid)
    &&& forall|k: int| 0 <= k < i ==> !guild_matches_uid(#[trigger] guilds[k], server_id, server_uid)
}

/// `guilds` holds the guild that server `server_id` knows by `server_uid`.
pub open spec fn has_guild_with_uid(guilds: Seq<Guild>, server_id: u32, server_uid: u64) -> bool {
    exists|k: int| 0 <= k < guilds.len() && guild_matches_uid(#[trigger] guilds[k], server_id, server_uid)
}

/// The largest guild id in `guilds`; zero for none.
pub open spec fn max_guild_id(guilds: Seq<Guild>) -> u32
    decreases guilds.len(),
{
    if guilds.len() == 0 {
        0
    } else {
        let m = max_guild_id(guilds.drop_last());
        if guilds.last().id > m {
            guilds.last().id
        } else {
            m
        }
    }
}

/// The largest item id in `items`; zero for none.
pub open spec fn max_item_id(items: Seq<CharacterItem>) -> u32
    decreases items.len(),
{
    if items.len() == 0 {
        0
    } else {
        let m = max_item_id(items.drop_last());
        if items.last().id > m {
            items.last().id
        } else {
            m
        }
    }
}

/// A recorded item holds the values of `dto`.
pub open spec fn item_has_values(item: CharacterItem, dto: CharacterItemDto) -> bool {
    &&& item.item_id == dto.item_id
    &&& item.random_property_id == dto.random_property_id
    &&& item.enchant_id == dto.enchant_id
    &&& item.gem_ids@ == dto.gem_ids@
}

/// `i` is the first position of `items` with an item that holds the values of `dto`.
pub open spec fn first_item_with_values(items: Seq<CharacterItem>, dto: CharacterItemDto, i: int) -> bool {
    &&& 0 <= i < items.len()
    &&& item_has_values(items[i], dto)
    &&& forall|k: int| 0 <= k < i ==> !item_has_values(#[trigger] items[k], dto)
}

/// `items` holds an item with the values of `dto`.
pub open spec fn has_item_with_values(items: Seq<CharacterItem>, dto: CharacterItemDto) -> bool {
    exists|k: int| 0 <= k < items.len() && item_has_values(#[trigger] items[k], dto)
}

/// `i` is the first position of `items` with an item whose id is `id`.
pub open spec fn first_item_with_id(items: Seq<CharacterItem>, id: u32, i: int) -> bool {
    &&& 0 <= i < items.len()
    &&& items[i].id == id
    &&& forall|k: int| 0 <= k < i ==> #[trigger] items[k].id != id
}

/// `items` holds an item whose id is `id`.
pub open spec fn has_item_with_id(items: Seq<CharacterItem>, id: u32) -> bool {
    exists|k: int| 0 <= k < items.len() && #[trigger] items[k].id == id
}

/// `i` is the first position of `teams` with a team whose id is `id`.
pub open spec fn first_team_with_id(teams: Seq<ArenaTeam>, id: u32, i: int) -> bool {
    &&& 0 <= i < teams.len()
    &&& teams[i].id == id
    &&& forall|k: int| 0 <= k < i ==> #[trigger] teams[k].id != id
}

/// `teams` holds a team whose id is `id`.
pub open spec fn has_team_with_id(teams: Seq<ArenaTeam>, id: u32) -> bool {
    exists|k: int| 0 <= k < teams.len() && #[trigger] teams[k].id == id
}
/// The id of the first character in `chars` whose unit id is `uid`.
pub open spec fn character_id_by_uid(chars: Seq<Character>, uid: u64) -> Option<u32>
    decreases chars.len(),
{
    if chars.len() == 0 {
        None
    } else if chars[0].server_uid == uid {
        Some(chars[0].id)
    } else {
        character_id_by_uid(chars.drop_first(), uid)
    }
}

/// Adding a guild to the directory, or finding the one already there.
pub trait CreateGuild {
    fn create_guild(&mut self, server_id: u32, guild: GuildDto) -> Result<Guild, ArmoryFailure>;
}

/// Finding guilds.
pub trait GetGuild {
    fn get_guild(&self, guild_id: u32) -> Option<Guild>;

    fn get_guild_by_uid(&self, server_id: u32, server_uid: u64) -> Option<Guild>;
}

/// Renaming guilds.
pub trait UpdateGuild {
    fn update_guild_name(&mut self, server_id: u32, server_uid: u64, name: String) -> Result<
        (),
        ArmoryFailure,
    >;
}

/// Renaming arena teams.
pub trait UpdateArenaTeam {
    fn update_arena_team_name(&mut self, team_id: u32, new_name: String) -> Result<
        (),
        ArmoryFailure,
    >;
}

/// Adding a worn item to the directory, or finding the one already there.
pub trait CreateCharacterItem {
    fn create_character_item(&mut self, character_item: CharacterItemDto) -> Result<
        CharacterItem,
        ArmoryFailure,
    >;
}

/// Finding worn items.
pub trait GetCharacterItem {
    fn get_character_item(&self, id: u32) -> Result<CharacterItem, ArmoryFailure>;
}

/// Two recorded items that hold the same values.
pub open spec fn same_item(a: CharacterItem, b: CharacterItem) -> bool {
    &&& a.id == b.id
    &&& a.item_id == b.item_id
    &&& a.random_property_id == b.random_property_id
    &&& a.enchant_id == b.enchant_id
    &&& a.gem_ids@ == b.gem_ids@
}

/// A character with Unicode's White_Space property.
pub open spec fn is_white_space(c: char) -> bool {
    ('\u{9}' <= c <= '\u{d}') || c == ' ' || c == '\u{85}' || c == '\u{a0}' || c == '\u{1680}'
        || ('\u{2000}' <= c <= '\u{200a}') || c == '\u{2028}' || c == '\u{2029}' || c
        == '\u{202f}' || c == '\u{205f}' || c == '\u{3000}'
}

/// Every character of `s` is white space.
pub open spec fn is_blank(s: Seq<char>) -> bool {
    forall|i: int| 0 <= i < s.len() ==> is_white_space(#[trigger] s[i])
}

/// `t` is `s` without its leading and trailing white space.
pub open spec fn is_trimmed(s: Seq<char>, t: Seq<char>) -> bool {
    exists|lo: int, hi: int|
        {
            &&& 0 <= lo <= hi <= s.len()
            &&& t == s.subrange(lo, hi)
            &&& is_blank(s.subrange(0, lo))
            &&& is_blank(s.subrange(hi, s.len() as int))
            &&& lo < hi ==> !is_white_space(s[lo]) && !is_white_space(s[hi - 1])
        }
}

/// Relies on `str::trim`: the slice of `s` without its leading and trailing
/// Unicode white space.
#[verifier::external_body]
fn trim(s: &str) -> (r: &str)
    ensures
        is_trimmed(s@, r@),
{
    s.trim()
}

/// The trimmed form of a string is empty exactly when the string is blank.
proof fn lemma_trimmed_empty_iff_blank(s: Seq<char>, t: Seq<char>)
    requires
        is_trimmed(s, t),
    ensures
        t.len() == 0 <==> is_blank(s),
{
    let (lo, hi) = choose|lo: int, hi: int|
        {
            &&& 0 <= lo <= hi <= s.len()
            &&& t == s.subrange(lo, hi)
            &&& is_blank(s.subrange(0, lo))
            &&& is_blank(s.subrange(hi, s.len() as int))
            &&& lo < hi ==> !is_white_space(s[lo]) && !is_white_space(s[hi - 1])
        };
    if t.len() == 0 {
        assert forall|i: int| 0 <= i < s.len() implies is_white_space(#[trigger] s[i]) by {
            if i < lo {
                assert(s.subrange(0, lo)[i] == s[i]);
            } else {
                assert(s.subrange(hi, s.len() as int)[i - hi] == s[i]);
            }
        }
    }
}

fn copy_guild(g: &Guild) -> (r: Guild)
    ensures
        r == *g,
{
    Guild { id: g.id, server_id: g.server_id, server_uid: g.server_uid, name: g.name.clone() }
}

fn copy_gem_ids(v: &Vec<Option<u32>>) -> (r: Vec<Option<u32>>)
    ensures
        r@ == v@,
{
    let mut r: Vec<Option<u32>> = Vec::new();
    let mut i: usize = 0;
    while i < v.len()
        invariant
            i <= v@.len(),
            r@ == v@.subrange(0, i as int),
        decreases v.len() - i,
    {
        r.push(v[i]);
        i += 1;
    }
    assert(r@ =~= v@);
    r
}

fn copy_item(item: &CharacterItem) -> (r: CharacterItem)
    ensures
        same_item(r, *item),
{
    CharacterItem {
        id: item.id,
        item_id: item.item_id,
        random_property_id: item.random_property_id,
        enchant_id: item.enchant_id,
        gem_ids: copy_gem_ids(&item.gem_ids),
    }
}

fn same_gem_ids(a: &Vec<Option<u32>>, b: &Vec<Option<u32>>) -> (r: bool)
    ensures
        r == (a@ == b@),
{
    if a.len() != b.len() {
        return false;
    }
    let mut i: usize = 0;
    while i < a.len()
        invariant
            i <= a@.len(),
            a@.len() == b@.len(),
            forall|k: int| 0 <= k < i ==> a@[k] == b@[k],
        decreases a.len() - i,
    {
        if a[i] != b[i] {
            return false;
        }
        i += 1;
    }
    assert(a@ =~= b@);
    true
}

impl Default for Armory {
    fn default() -> (r: Armory)
        ensures
            r.characters@ == Seq::<Character>::empty(),
            r.guilds@ == Seq::<Guild>::empty(),
            r.arena_teams@ == Seq::<ArenaTeam>::empty(),
            r.items@ == Seq::<CharacterItem>::empty(),
    {
        Armory { characters: Vec::new(), guilds: Vec::new(), arena_teams: Vec::new(), items: Vec::new() }
    }
}

impl Guild {
    /// The guild holds the values that `dto` reports.
    pub fn compare_by_value(&self, dto: &GuildDto) -> (r: bool)
        ensures
            r == (self.server_uid == dto.server_uid && self.name@ == dto.name@),
    {
        self.server_uid == dto.server_uid && self.name == dto.name
    }

    /// Both guilds hold the same values.
    pub fn deep_eq(&self, other: &Guild) -> (r: bool)
        ensures
            r == (self.id == other.id && self.server_id == other.server_id && self.server_uid
                == other.server_uid && self.name@ == other.name@),
    {
        self.id == other.id && self.server_id == other.server_id && self.server_uid
            == other.server_uid && self.name == other.name
    }
}

impl CharacterItem {
    /// The item holds the values of `dto`.
    pub fn compare_by_value(&self, dto: &CharacterItemDto) -> (r: bool)
        ensures
            r == item_has_values(*self, *dto),
    {
        self.item_id == dto.item_id && self.random_property_id == dto.random_property_id
            && self.enchant_id == dto.enchant_id && same_gem_ids(&self.gem_ids, &dto.gem_ids)
    }

    /// Both items hold the same values.
    pub fn deep_eq(&self, other: &CharacterItem) -> (r: bool)
        ensures
            r == same_item(*self, *other),
    {
        self.id == other.id && self.item_id == other.item_id && self.random_property_id
            == other.random_property_id && self.enchant_id == other.enchant_id && same_gem_ids(
            &self.gem_ids,
            &other.gem_ids,
        )
    }
}

impl Armory {
    fn find_guild(&self, guild_id: u32) -> (r: Option<usize>)
        ensures
            r is None <==> !has_guild_with_id(self.guilds@, guild_id),
            r matches Some(i) ==> first_guild_with_id(self.guilds@, guild_id, i as int),
    {
        let mut i: usize = 0;
        while i < self.guilds.len()
            invariant
                i <= self.guilds@.len(),
                forall|k: int| 0 <= k < i ==> #[trigger] self.guilds@[k].id != guild_id,
            decreases self.guilds.len() - i,
        {
            if self.guilds[i].id == guild_id {
                return Some(i);
            }
            i += 1;
        }
        None
    }

    fn find_guild_by_uid(&self, server_id: u32, server_uid: u64) -> (r: Option<usize>)
        ensures
            r is None <==> !has_guild_with_uid(self.guilds@, server_id, server_uid),
            r matches Some(i) ==> first_guild_with_uid(self.guilds@, server_id, server_uid, i as int),
    {
        let mut i: usize = 0;
        while i < self.guilds.len()
            invariant
                i <= self.guilds@.len(),
                forall|k: int|
                    0 <= k < i ==> !guild_matches_uid(#[trigger] self.guilds@[k], server_id, server_uid),
            decreases self.guilds.len() - i,
        {
            if self.guilds[i].server_id == server_id && self.guilds[i].server_uid == server_uid {
                return Some(i);
            }
            i += 1;
        }
        None
    }

    fn max_guild_id(&self) -> (r: u32)
        ensures
            r == max_guild_id(self.guilds@),
    {
        let mut m: u32 = 0;
        let mut i: usize = 0;
        while i < self.guilds.len()
            invariant
                i <= self.guilds@.len(),
                m == max_guild_id(self.guilds@.subrange(0, i as int)),
            decreases self.guilds.len() - i,
        {
            assert(self.guilds@.subrange(0, i + 1).drop_last() =~= self.guilds@.subrange(0, i as int));
            if self.guilds[i].id > m {
                m = self.guilds[i].id;
            }
            i += 1;
        }
        assert(self.guilds@.subrange(0, self.guilds@.len() as int) =~= self.guilds@);
        m
    }

    fn find_item_by_value(&self, dto: &CharacterItemDto) -> (r: Option<usize>)
        ensures
            r is None <==> !has_item_with_values(self.items@, *dto),
            r matches Some(i) ==> first_item_with_values(self.items@, *dto, i as int),
    {
        let mut i: usize = 0;
        while i < self.items.len()
            invariant
                i <= self.items@.len(),
                forall|k: int| 0 <= k < i ==> !item_has_values(#[trigger] self.items@[k], *dto),
            decreases self.items.len() - i,
        {
            if self.items[i].compare_by_value(dto) {
                return Some(i);
            }
            i += 1;
        }
        None
    }

    fn find_item(&self, id: u32) -> (r: Option<usize>)
        ensures
            r is None <==> !has_item_with_id(self.items@, id),
            r matches Some(i) ==> first_item_with_id(self.items@, id, i as int),
    {
        let mut i: usize = 0;
        while i < self.items.len()
            invariant
                i <= self.items@.len(),
                forall|k: int| 0 <= k < i ==> #[trigger] self.items@[k].id != id,
            decreases self.items.len() - i,
        {
            if self.items[i].id == id {
                return Some(i);
            }
            i += 1;
        }
        None
    }

    fn max_item_id(&self) -> (r: u32)
        ensures
            r == max_item_id(self.items@),
    {
        let mut m: u32 = 0;
        let mut i: usize = 0;
        while i < self.items.len()
            invariant
                i <= self.items@.len(),
                m == max_item_id(self.items@.subrange(0, i as int)),
            decreases self.items.len() - i,
        {
            assert(self.items@.subrange(0, i + 1).drop_last() =~= self.items@.subrange(0, i as int));
            if self.items[i].id > m {
                m = self.items[i].id;
            }
            i += 1;
        }
        assert(self.items@.subrange(0, self.items@.len() as int) =~= self.items@);
        m
    }

    fn find_arena_team(&self, id: u32) -> (r: Option<usize>)
        ensures
            r is None <==> !has_team_with_id(self.arena_teams@, id),
            r matches Some(i) ==> first_team_with_id(self.arena_teams@, id, i as int),
    {
        let mut i: usize = 0;
        while i < self.arena_teams.len()
            invariant
                i <= self.arena_teams@.len(),
                forall|k: int| 0 <= k < i ==> #[trigger] self.arena_teams@[k].id != id,
            decreases self.arena_teams.len() - i,
        {
            if self.arena_teams[i].id == id {
                return Some(i);
            }
            i += 1;
        }
        None
    }

    /// Looks up the character that the game server knows by `uid`.
    pub fn lookup_character(&self, uid: u64) -> (r: Option<u32>)
        ensures
            r == character_id_by_uid(self.characters@, uid),
    {
        let mut i: usize = 0;
        assert(self.characters@.subrange(0, self.characters@.len() as int) =~= self.characters@);
        while i < self.characters.len()
            invariant
                i <= self.characters@.len(),
                character_id_by_uid(self.characters@, uid) == character_id_by_uid(
                    self.characters@.subrange(i as int, self.characters@.len() as int),
                    uid,
                ),
            decreases self.characters.len() - i,
        {
            let ghost rest = self.characters@.subrange(i as int, self.characters@.len() as int);
            assert(rest.drop_first() =~= self.characters@.subrange(
                i + 1,
                self.characters@.len() as int,
            ));
            if self.characters[i].server_uid == uid {
                return Some(self.characters[i].id);
            }
            i += 1;
        }
        None
    }
}

impl GetGuild for Armory {
    /// The first guild with id `guild_id`.
    fn get_guild(&self, guild_id: u32) -> (r: Option<Guild>)
        ensures
            r is None <==> !has_guild_with_id(self.guilds@, guild_id),
            r matches Some(g) ==> exists|i: int|
                first_guild_with_id(self.guilds@, guild_id, i) && g == self.guilds@[i],
    {
        match self.find_guild(guild_id) {
            Some(i) => Some(copy_guild(&self.guilds[i])),
            None => None,
        }
    }

    /// The guild that server `server_id` knows by `server_uid`.
    fn get_guild_by_uid(&self, server_id: u32, server_uid: u64) -> (r: Option<Guild>)
        ensures
            r is None <==> !has_guild_with_uid(self.guilds@, server_id, server_uid),
            r matches Some(g) ==> exists|i: int|
                first_guild_with_uid(self.guilds@, server_id, server_uid, i) && g == self.guilds@[i],
    {
        match self.find_guild_by_uid(server_id, server_uid) {
            Some(i) => Some(copy_guild(&self.guilds[i])),
            None => None,
        }
    }
}

impl CreateGuild for Armory {
    /// Returns the guild that server `server_id` knows by `guild.server_uid`,
    /// adding it under an id one above the largest one held where it is new.
    /// A server uid of zero is invalid; an exhausted id range is a store failure.
    fn create_guild(&mut self, server_id: u32, guild: GuildDto) -> (r: Result<Guild, ArmoryFailure>)
        ensures
            final(self).characters == old(self).characters,
            final(self).arena_teams == old(self).arena_teams,
            final(self).items == old(self).items,
            guild.server_uid == 0 ==> r == Err::<Guild, ArmoryFailure>(ArmoryFailure::InvalidInput)
                && final(self).guilds == old(self).guilds,
            guild.server_uid != 0 && has_guild_with_uid(old(self).guilds@, server_id, guild.server_uid)
                ==> final(self).guilds == old(self).guilds && exists|i: int|
                first_guild_with_uid(old(self).guilds@, server_id, guild.server_uid, i) && r
                == Ok::<Guild, ArmoryFailure>(old(self).guilds@[i]),
            guild.server_uid != 0 && !has_guild_with_uid(old(self).guilds@, server_id, guild.server_uid)
                && max_guild_id(old(self).guilds@) == u32::MAX ==> final(self).guilds == old(self).guilds
                && r matches Err(ArmoryFailure::Database(_)),
            guild.server_uid != 0 && !has_guild_with_uid(old(self).guilds@, server_id, guild.server_uid)
                && max_guild_id(old(self).guilds@) < u32::MAX ==> ({
                let added = Guild {
                    id: (max_guild_id(old(self).guilds@) + 1) as u32,
                    server_id,
                    server_uid: guild.server_uid,
                    name: guild.name,
                };
                &&& r == Ok::<Guild, ArmoryFailure>(added)
                &&& final(self).guilds@ == old(self).guilds@.push(added)
            }),
    {
        if guild.server_uid == 0 {
            return Err(ArmoryFailure::InvalidInput);
        }
        if let Some(i) = self.find_guild_by_uid(server_id, guild.server_uid) {
            return Ok(copy_guild(&self.guilds[i]));
        }
        let max = self.max_guild_id();
        if max == u32::MAX {
            return Err(ArmoryFailure::Database("create_guild".to_owned()));
        }
        let added = Guild { id: max + 1, server_id, server_uid: guild.server_uid, name: guild.name };
        self.guilds.push(copy_guild(&added));
        Ok(added)
    }
}

impl UpdateGuild for Armory {
    /// Renames the guild that server `server_id` knows by `server_uid`; an
    /// unknown guild is invalid input.
    fn update_guild_name(&mut self, server_id: u32, server_uid: u64, name: String) -> (r: Result<
        (),
        ArmoryFailure,
    >)
        ensures
            final(self).characters == old(self).characters,
            final(self).arena_teams == old(self).arena_teams,
            final(self).items == old(self).items,
            !has_guild_with_uid(old(self).guilds@, server_id, server_uid) ==> r == Err::<
                (),
                ArmoryFailure,
            >(ArmoryFailure::InvalidInput) && final(self).guilds == old(self).guilds,
            has_guild_with_uid(old(self).guilds@, server_id, server_uid) ==> r is Ok && exists|i: int|
                first_guild_with_uid(old(self).guilds@, server_id, server_uid, i)
                    && final(self).guilds@ == old(self).guilds@.update(
                    i,
                    Guild { name, ..old(self).guilds@[i] },
                ),
    {
        match self.find_guild_by_uid(server_id, server_uid) {
            Some(i) => {
                let old_guild = &self.guilds[i];
                let renamed = Guild {
                    id: old_guild.id,
                    server_id: old_guild.server_id,
                    server_uid: old_guild.server_uid,
                    name,
                };
                self.guilds.set(i, renamed);
                Ok(())
            },
            None => Err(ArmoryFailure::InvalidInput),
        }
    }
}

impl UpdateArenaTeam for Armory {
    /// Renames the arena team `team_id`; a blank name is invalid input, and an
    /// unknown team is left alone.
    fn update_arena_team_name(&mut self, team_id: u32, new_name: String) -> (r: Result<
        (),
        ArmoryFailure,
    >)
        ensures
            final(self).characters == old(self).characters,
            final(self).guilds == old(self).guilds,
            final(self).items == old(self).items,
            is_blank(new_name@) ==> r == Err::<(), ArmoryFailure>(ArmoryFailure::InvalidInput)
                && final(self).arena_teams == old(self).arena_teams,
            !is_blank(new_name@) && !has_team_with_id(old(self).arena_teams@, team_id) ==> r is Ok
                && final(self).arena_teams == old(self).arena_teams,
            !is_blank(new_name@) && has_team_with_id(old(self).arena_teams@, team_id) ==> r is Ok
                && exists|i: int|
                first_team_with_id(old(self).arena_teams@, team_id, i)
                    && final(self).arena_teams@ == old(self).arena_teams@.update(
                    i,
                    ArenaTeam { team_name: new_name, ..old(self).arena_teams@[i] },
                ),
    {
        let trimmed = trim(new_name.as_str());
        proof {
            lemma_trimmed_empty_iff_blank(new_name@, trimmed@);
        }
        if trimmed.is_empty() {
            return Err(ArmoryFailure::InvalidInput);
        }
        if let Some(i) = self.find_arena_team(team_id) {
            let team = &self.arena_teams[i];
            let renamed = ArenaTeam { id: team.id, server_id: team.server_id, team_name: new_name };
            self.arena_teams.set(i, renamed);
        }
        Ok(())
    }
}

impl CreateCharacterItem for Armory {
    /// Returns the item that holds the values of `character_item`, adding it
    /// under an id one above the largest one held where it is new. An
    /// exhausted id range is a store failure.
    fn create_character_item(&mut self, character_item: CharacterItemDto) -> (r: Result<
        CharacterItem,
        ArmoryFailure,
    >)
        ensures
            final(self).characters == old(self).characters,
            final(self).guilds == old(self).guilds,
            final(self).arena_teams == old(self).arena_teams,
            has_item_with_values(old(self).items@, character_item) ==> final(self).items
                == old(self).items && exists|i: int|
                first_item_with_values(old(self).items@, character_item, i) && (r matches Ok(item)
                    && same_item(item, old(self).items@[i])),
            !has_item_with_values(old(self).items@, character_item) && max_item_id(old(self).items@)
                == u32::MAX ==> final(self).items == old(self).items && r matches Err(
                ArmoryFailure::Database(_),
            ),
            !has_item_with_values(old(self).items@, character_item) && max_item_id(old(self).items@)
                < u32::MAX ==> ({
                let added = final(self).items@.last();
                &&& final(self).items@ == old(self).items@.push(added)
                &&& added.id == max_item_id(old(self).items@) + 1
                &&& item_has_values(added, character_item)
                &&& r matches Ok(item) && same_item(item, added)
            }),
    {
        if let Some(i) = self.find_item_by_value(&character_item) {
            return Ok(copy_item(&self.items[i]));
        }
        let max = self.max_item_id();
        if max == u32::MAX {
            return Err(ArmoryFailure::Database("create_character_item".to_owned()));
        }
        let added = CharacterItem {
            id: max + 1,
            item_id: character_item.item_id,
            random_property_id: character_item.random_property_id,
            enchant_id: character_item.enchant_id,
            gem_ids: character_item.gem_ids,
        };
        let result = copy_item(&added);
        self.items.push(added);
        Ok(result)
    }
}

impl GetCharacterItem for Armory {
    /// The first item with id `id`; an unknown id is invalid input.
    fn get_character_item(&self, id: u32) -> (r: Result<CharacterItem, ArmoryFailure>)
        ensures
            !has_item_with_id(self.items@, id) ==> r == Err::<CharacterItem, ArmoryFailure>(
                ArmoryFailure::InvalidInput,
            ),
            has_item_with_id(self.items@, id) ==> exists|i: int|
                first_item_with_id(self.items@, id, i) && (r matches Ok(item) && same_item(
                    item,
                    self.items@[i],
                )),
    {
        match self.find_item(id) {
            Some(i) => Ok(copy_item(&self.items[i])),
            None => Err(ArmoryFailure::InvalidInput),
        }
    }
}

} // verus!
