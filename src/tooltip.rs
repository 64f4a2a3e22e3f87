//! Tooltips built from the directory.

use vstd::prelude::*;

use crate::armory::{first_guild_with_id, has_guild_with_id, Armory, Character, GetGuild};

verus! {

/// What a guild's tooltip shows.
#[derive(Clone, Debug)]
pub struct GuildTooltip {
    pub guild_id: u32,
    pub guild_name: String,
    pub num_member: usize,
}

/// Why a tooltip could not be built.
#[derive(Clone, Copy, Debug, PartialEq, Eq, Structural)]
pub enum TooltipFailure {
    InvalidInput,
}

/// Builds tooltips.
#[derive(Clone, Copy, Debug, PartialEq, Eq, Structural)]
pub struct Tooltip {}

/// The latest recorded state of `c` places it in guild `guild_id`.
pub open spec fn is_member(c: Character, guild_id: u32) -> bool {
    match c.last_update {
        Some(h) => match h.character_guild {
            Some(g) => g.guild_id == guild_id,
            None => false,
        },
        None => false,
    }
}

/// How many characters of `chars` are members of guild `guild_id`.
pub open spec fn member_count(chars: Seq<Character>, guild_id: u32) -> nat
    decreases chars.len(),
{
    if chars.len() == 0 {
        0
    } else {
        member_count(chars.drop_last(), guild_id) + if is_member(chars.last(), guild_id) {
            1nat
        } else {
            0nat
        }
    }
}

proof fn lemma_member_count_bound(chars: Seq<Character>, guild_id: u32)
    ensures
        member_count(chars, guild_id) <= chars.len(),
    decreases chars.len(),
{
    if chars.len() > 0 {
        lemma_member_count_bound(chars.drop_last(), guild_id);
    }
}

/// Building a guild's tooltip.
pub trait RetrieveGuildTooltip {
    fn get_guild(&self, armory: &Armory, guild_id: u32) -> Result<GuildTooltip, TooltipFailure>;
}

impl Tooltip {
    pub fn new() -> (r: Tooltip) {
        Tooltip {  }
    }
}

fn is_member_exec(c: &Character, guild_id: u32) -> (r: bool)
    ensures
        r == is_member(*c, guild_id),
{
    match &c.last_update {
        Some(h) => match h.character_guild {
            Some(g) => g.guild_id == guild_id,
            None => false,
        },
        None => false,
    }
}

impl RetrieveGuildTooltip for Tooltip {
    /// The name of the guild `guild_id` and how many characters it counts; an
    /// unknown guild is invalid input.
    fn get_guild(&self, armory: &Armory, guild_id: u32) -> (r: Result<GuildTooltip, TooltipFailure>)
        ensures
            !has_guild_with_id(armory.guilds@, guild_id) ==> r == Err::<
                GuildTooltip,
                TooltipFailure,
            >(TooltipFailure::InvalidInput),
            has_guild_with_id(armory.guilds@, guild_id) ==> exists|i: int|
                first_guild_with_id(armory.guilds@, guild_id, i) && r == Ok::<
                    GuildTooltip,
                    TooltipFailure,
                >(
                    GuildTooltip {
                        guild_id,
                        guild_name: armory.guilds@[i].name,
                        num_member: member_count(armory.characters@, guild_id) as usize,
                    },
                ),
    {
        let guild = match armory.get_guild(guild_id) {
            Some(g) => g,
            None => {
                return Err(TooltipFailure::InvalidInput);
            },
        };
        let mut num_member: usize = 0;
        let mut i: usize = 0;
        while i < armory.characters.len()
            invariant
                i <= armory.characters@.len(),
                num_member == member_count(armory.characters@.subrange(0, i as int), guild_id),
            decreases armory.characters.len() - i,
        {
            assert(armory.characters@.subrange(0, i + 1).drop_last() =~= armory.characters@.subrange(
                0,
                i as int,
            ));
            proof {
                lemma_member_count_bound(armory.characters@.subrange(0, i as int), guild_id);
            }
            if is_member_exec(&armory.characters[i], guild_id) {
                num_member += 1;
            }
            i += 1;
        }
        assert(armory.characters@.subrange(0, armory.characters@.len() as int) =~= armory.characters@);
        Ok(GuildTooltip { guild_id, guild_name: guild.name, num_member })
    }
}

} // verus!
