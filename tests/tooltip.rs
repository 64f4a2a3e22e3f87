use backend::armory::{Armory, Character, CharacterGuild, CharacterHistory, Guild};
use backend::tooltip::{RetrieveGuildTooltip, Tooltip, TooltipFailure};

fn member(id: u32, guild: Option<u32>) -> Character {
    Character {
        id,
        server_id: 1,
        server_uid: id as u64,
        last_update: Some(CharacterHistory {
            id,
            character_name: format!("c{}", id),
            character_guild: guild.map(|guild_id| CharacterGuild { guild_id, rank: 0 }),
            timestamp: 0,
        }),
    }
}

#[test]
fn guild_tooltip_counts_current_members() {
    let mut armory = Armory::default();
    armory.guilds.push(Guild { id: 3, server_id: 1, server_uid: 9, name: "Knights".to_owned() });
    armory.characters.push(member(1, Some(3)));
    armory.characters.push(member(2, Some(4)));
    armory.characters.push(member(3, None));
    armory.characters.push(Character { id: 4, server_id: 1, server_uid: 4, last_update: None });
    armory.characters.push(member(5, Some(3)));
    let t = Tooltip::new().get_guild(&armory, 3).unwrap();
    assert_eq!((t.guild_id, t.guild_name.as_str(), t.num_member), (3, "Knights", 2));
}

#[test]
fn guild_tooltip_of_an_unknown_guild_is_invalid() {
    let armory = Armory::default();
    assert_eq!(Tooltip::new().get_guild(&armory, 3).unwrap_err(), TooltipFailure::InvalidInput);
}
