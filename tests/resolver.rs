use backend::armory::{Armory, Character};
use backend::unit::{owner_chain_end, resolve, Creature, DtoUnit, Identity, Player, Unit, MAX_OWNER_HOPS};
use std::collections::HashMap;

#[test]
fn a_creature_without_owner_is_its_own_identity() {
    let summons: HashMap<u64, u64> = HashMap::new();
    assert_eq!(owner_chain_end(&summons, 17), 17);
    let unit = Unit::Creature(Creature { creature_id: 17, entry: 3, owner: None });
    assert_eq!(resolve(&unit, &summons, &Armory::default()), Identity::Guid(17));
}

#[test]
fn a_chain_is_followed_to_its_end() {
    let mut summons: HashMap<u64, u64> = HashMap::new();
    summons.insert(1, 2);
    summons.insert(2, 3);
    assert_eq!(owner_chain_end(&summons, 1), 3);
    assert_eq!(owner_chain_end(&summons, 2), 3);
    assert_eq!(owner_chain_end(&summons, 3), 3);
}

#[test]
fn chains_longer_than_the_bound_stay_unresolved() {
    let mut summons: HashMap<u64, u64> = HashMap::new();
    for i in 0..MAX_OWNER_HOPS as u64 {
        summons.insert(100 + i, 101 + i);
    }
    // exactly the bound: resolved
    assert_eq!(owner_chain_end(&summons, 100), 100 + MAX_OWNER_HOPS as u64);
    // one more hop: unresolved
    summons.insert(99, 100);
    assert_eq!(owner_chain_end(&summons, 99), 99);
}

#[test]
fn a_self_owned_creature_stays_itself() {
    let mut summons: HashMap<u64, u64> = HashMap::new();
    summons.insert(5, 5);
    assert_eq!(owner_chain_end(&summons, 5), 5);
}

#[test]
fn an_owner_known_as_a_character_becomes_that_character() {
    let mut armory = Armory::default();
    armory.characters.push(Character { id: 3, server_id: 1, server_uid: 77, last_update: None });
    armory.characters.push(Character { id: 4, server_id: 1, server_uid: 77, last_update: None });
    let mut summons: HashMap<u64, u64> = HashMap::new();
    summons.insert(500, 77);
    summons.insert(501, 78);
    let pet = Unit::Creature(Creature { creature_id: 500, entry: 0, owner: Some(77) });
    assert_eq!(resolve(&pet, &summons, &armory), Identity::Character(3));
    let other = Unit::Creature(Creature { creature_id: 501, entry: 0, owner: Some(78) });
    assert_eq!(resolve(&other, &summons, &armory), Identity::Guid(78));
    let player = Unit::Player(Player { character_id: 9 });
    assert_eq!(resolve(&player, &summons, &armory), Identity::Character(9));
}

#[test]
fn directory_lookup_takes_the_first_character() {
    let mut armory = Armory::default();
    armory.characters.push(Character { id: 3, server_id: 1, server_uid: 77, last_update: None });
    armory.characters.push(Character { id: 4, server_id: 2, server_uid: 77, last_update: None });
    assert_eq!(armory.lookup_character(77), Some(3));
    assert_eq!(armory.lookup_character(78), None);
}

#[test]
fn wire_units_become_domain_units() {
    let mut armory = Armory::default();
    armory.characters.push(Character { id: 3, server_id: 1, server_uid: 77, last_update: None });
    let mut summons: HashMap<u64, u64> = HashMap::new();
    let id: u64 = 0xF130_0012_3456_789A;
    summons.insert(id, 77);
    let c = DtoUnit { is_player: false, unit_id: id };
    assert_eq!(
        c.to_unit(&summons, &armory),
        Some(Unit::Creature(Creature { creature_id: id, entry: 0x1234, owner: Some(77) }))
    );
    assert_eq!(c.resolve(&summons, &armory), Some(Identity::Character(3)));
    let p = DtoUnit { is_player: true, unit_id: 77 };
    assert_eq!(p.to_unit(&summons, &armory), Some(Unit::Player(Player { character_id: 3 })));
    let unknown = DtoUnit { is_player: true, unit_id: 78 };
    assert_eq!(unknown.to_unit(&summons, &armory), None);
    assert_eq!(unknown.resolve(&summons, &armory), None);
}
