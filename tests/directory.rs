use backend::armory::{
    ArenaTeam, Armory, ArmoryFailure, CharacterItemDto, CreateCharacterItem, CreateGuild, GetCharacterItem, GetGuild,
    Guild, GuildDto, UpdateArenaTeam, UpdateGuild,
};

fn dto(server_uid: u64, name: &str) -> GuildDto {
    GuildDto { server_uid, name: name.to_owned() }
}

#[test]
fn a_guild_without_server_uid_is_invalid() {
    let mut armory = Armory::default();
    assert_eq!(armory.create_guild(1, dto(0, "Nameless")).unwrap_err(), ArmoryFailure::InvalidInput);
    assert!(armory.guilds.is_empty());
}

#[test]
fn new_guilds_get_the_next_id_and_existing_ones_come_back() {
    let mut armory = Armory::default();
    armory.guilds.push(Guild { id: 40, server_id: 1, server_uid: 5, name: "Old".to_owned() });
    let g = armory.create_guild(1, dto(6, "New")).unwrap();
    assert_eq!((g.id, g.server_id, g.server_uid, g.name.as_str()), (41, 1, 6, "New"));
    // same uid on another server is another guild
    let h = armory.create_guild(2, dto(6, "Elsewhere")).unwrap();
    assert_eq!(h.id, 42);
    // same server and uid: the stored guild, name unchanged
    let again = armory.create_guild(1, dto(6, "Renamed")).unwrap();
    assert!(again.deep_eq(&g));
    assert_eq!(armory.guilds.len(), 3);
    assert_eq!(armory.get_guild_by_uid(2, 6).unwrap().id, 42);
    assert!(armory.get_guild(43).is_none());
}

#[test]
fn an_exhausted_id_range_is_a_store_failure() {
    let mut armory = Armory::default();
    armory.guilds.push(Guild { id: u32::MAX, server_id: 1, server_uid: 5, name: "Last".to_owned() });
    assert_eq!(
        armory.create_guild(1, dto(6, "New")).unwrap_err(),
        ArmoryFailure::Database("create_guild".to_owned())
    );
    assert_eq!(armory.guilds.len(), 1);
}

#[test]
fn renaming_an_unknown_guild_is_invalid() {
    let mut armory = Armory::default();
    assert_eq!(armory.update_guild_name(1, 5, "X".to_owned()), Err(ArmoryFailure::InvalidInput));
}

#[test]
fn arena_teams_refuse_blank_names() {
    let mut armory = Armory::default();
    armory.arena_teams.push(ArenaTeam { id: 3, server_id: 1, team_name: "Gladiators".to_owned() });
    for blank in ["", "   ", "\t\n", "\u{3000}\u{a0} "] {
        assert_eq!(armory.update_arena_team_name(3, blank.to_owned()), Err(ArmoryFailure::InvalidInput));
    }
    assert_eq!(armory.arena_teams[0].team_name, "Gladiators");
    assert_eq!(armory.update_arena_team_name(3, "  Duelists ".to_owned()), Ok(()));
    assert_eq!(armory.arena_teams[0].team_name, "  Duelists ");
    // an unknown team is left alone
    assert_eq!(armory.update_arena_team_name(4, "Other".to_owned()), Ok(()));
    assert_eq!(armory.arena_teams.len(), 1);
}

#[test]
fn character_items_are_found_by_value() {
    let mut armory = Armory::default();
    let a = CharacterItemDto { item_id: 1, random_property_id: Some(-3), enchant_id: None, gem_ids: vec![Some(2)] };
    let b = CharacterItemDto { item_id: 1, random_property_id: Some(-3), enchant_id: None, gem_ids: vec![Some(3)] };
    let ia = armory.create_character_item(a.clone()).unwrap();
    let ib = armory.create_character_item(b.clone()).unwrap();
    assert_eq!((ia.id, ib.id), (1, 2));
    let ia2 = armory.create_character_item(a).unwrap();
    assert!(ia2.deep_eq(&ia));
    assert!(ib.compare_by_value(&b));
    assert_eq!(armory.items.len(), 2);
    assert_eq!(armory.get_character_item(3).unwrap_err(), ArmoryFailure::InvalidInput);
}
