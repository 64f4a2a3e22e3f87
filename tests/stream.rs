use backend::armory::{Armory, Character};
use backend::dispel::UnAura;
use backend::event::EventType;
use backend::payload::{DecodeError, AURA_APPLICATION_TYPE, LOOT_TYPE, SUMMON_TYPE, UN_AURA_TYPE};
use backend::stream::{settle_removal, PendingRemoval, Resolution, Stream};
use backend::unit::{DtoUnit, Player, Unit};
use std::collections::HashMap;

const PLAYER: u64 = 0x100;
const PET: u64 = 0xF140 << 48;

fn unit_bytes(is_player: bool, id: u64) -> Vec<u8> {
    let mut v = vec![is_player as u8];
    v.extend_from_slice(&id.to_le_bytes());
    v
}

fn aura_record(target: (bool, u64), spell: u32) -> Vec<u8> {
    let mut b = unit_bytes(target.0, target.1);
    b.extend(unit_bytes(false, 0xF130 << 48));
    b.extend_from_slice(&spell.to_le_bytes());
    b.extend_from_slice(&1u32.to_le_bytes());
    b
}

fn removal_record(target: (bool, u64), spell: u32, amount: u32) -> Vec<u8> {
    let mut b = unit_bytes(false, 0xF130 << 48);
    b.extend(unit_bytes(target.0, target.1));
    b.extend(unit_bytes(false, 0xF130 << 48));
    b.extend_from_slice(&7u32.to_le_bytes());
    b.extend_from_slice(&spell.to_le_bytes());
    b.extend_from_slice(&amount.to_le_bytes());
    b
}

fn loot_record(unit: u64) -> Vec<u8> {
    let mut b = unit.to_le_bytes().to_vec();
    b.extend_from_slice(&9u32.to_le_bytes());
    b
}

fn directory() -> Armory {
    let mut armory = Armory::default();
    armory.characters.push(Character { id: 7, server_id: 1, server_uid: PLAYER, last_update: None });
    armory
}

#[test]
fn a_removal_waits_for_its_stacks_then_correlates() {
    let armory = directory();
    let mut s = Stream::new(10);
    let mut summon = unit_bytes(false, PET);
    summon.extend(unit_bytes(true, PLAYER));
    assert_eq!(s.process(&armory, 0, 999, SUMMON_TYPE, &summon), Ok(vec![]));
    // the pet's aura counts as the player's
    assert_eq!(s.process(&armory, 1, 1000, AURA_APPLICATION_TYPE, &aura_record((false, PET), 42)), Ok(vec![]));
    assert_eq!(
        s.process(&armory, 2, 1001, UN_AURA_TYPE, &removal_record((true, PLAYER), 42, 2)),
        Ok(vec![])
    );
    assert_eq!(s.waiting().len(), 1);
    // one stack of two, within the grace period: still waiting
    assert_eq!(s.process(&armory, 3, 1003, LOOT_TYPE, &loot_record(PLAYER)), Ok(vec![]));
    assert_eq!(s.waiting().len(), 1);
    // the second stack arrives
    assert_eq!(
        s.process(&armory, 4, 1005, AURA_APPLICATION_TYPE, &aura_record((true, PLAYER), 42)),
        Ok(vec![Resolution::Correlated(2, vec![1, 4])])
    );
    assert_eq!(s.waiting().len(), 0);
    let ids: Vec<u32> = s.events().iter().map(|e| e.id).collect();
    assert_eq!(ids, vec![1, 3, 4]);
    assert_eq!(s.events()[1].subject, Unit::Player(Player { character_id: 7 }));
    assert!(matches!(s.events()[1].event, EventType::Loot(_)));
}

#[test]
fn a_partial_match_is_accepted_after_the_grace_period() {
    let armory = directory();
    let mut s = Stream::new(10);
    s.process(&armory, 1, 1000, AURA_APPLICATION_TYPE, &aura_record((true, PLAYER), 42)).unwrap();
    s.process(&armory, 2, 1001, UN_AURA_TYPE, &removal_record((true, PLAYER), 42, 3)).unwrap();
    assert_eq!(
        s.process(&armory, 3, 1012, LOOT_TYPE, &loot_record(PLAYER)),
        Ok(vec![Resolution::Correlated(2, vec![1])])
    );
}

#[test]
fn a_removal_without_any_match_is_abandoned_after_the_grace_period() {
    let armory = directory();
    let mut s = Stream::new(10);
    s.process(&armory, 2, 1001, UN_AURA_TYPE, &removal_record((true, PLAYER), 42, 1)).unwrap();
    assert_eq!(s.process(&armory, 3, 1011, LOOT_TYPE, &loot_record(PLAYER)), Ok(vec![]));
    assert_eq!(s.process(&armory, 4, 1012, LOOT_TYPE, &loot_record(PLAYER)), Ok(vec![Resolution::Abandoned(2)]));
    assert!(s.waiting().is_empty());
}

#[test]
fn a_bad_record_changes_nothing() {
    let armory = directory();
    let mut s = Stream::new(10);
    s.process(&armory, 2, 1001, UN_AURA_TYPE, &removal_record((true, PLAYER), 42, 1)).unwrap();
    assert_eq!(
        s.process(&armory, 3, 5000, LOOT_TYPE, &[1, 2, 3]),
        Err(DecodeError::LengthMismatch { expected: 12, actual: 3 })
    );
    assert_eq!(s.process(&armory, 3, 5000, 9, &[]), Err(DecodeError::UnknownType(9)));
    assert_eq!(s.waiting().len(), 1);
    assert!(s.events().is_empty());
}

#[test]
fn records_of_unknown_players_do_not_enter_the_window() {
    let armory = Armory::default();
    let mut s = Stream::new(10);
    s.process(&armory, 1, 1000, AURA_APPLICATION_TYPE, &aura_record((true, PLAYER), 42)).unwrap();
    s.process(&armory, 2, 1000, LOOT_TYPE, &loot_record(PLAYER)).unwrap();
    assert!(s.events().is_empty());
    s.process(&armory, 3, 1000, AURA_APPLICATION_TYPE, &aura_record((false, PET), 42)).unwrap();
    assert_eq!(s.events().len(), 1);
}

#[test]
fn old_events_leave_the_window() {
    let armory = directory();
    let mut s = Stream::new(10);
    s.process(&armory, 1, 1000, LOOT_TYPE, &loot_record(PLAYER)).unwrap();
    s.process(&armory, 2, 1010, LOOT_TYPE, &loot_record(PLAYER)).unwrap();
    assert_eq!(s.events().len(), 2);
    s.process(&armory, 3, 1011, LOOT_TYPE, &loot_record(PLAYER)).unwrap();
    let ids: Vec<u32> = s.events().iter().map(|e| e.id).collect();
    assert_eq!(ids, vec![2, 3]);
}

#[test]
fn settling_one_removal() {
    let armory = directory();
    let summons: HashMap<u64, u64> = HashMap::new();
    let target = DtoUnit { is_player: true, unit_id: PLAYER };
    let p = PendingRemoval {
        id: 5,
        timestamp: 100,
        request: UnAura {
            un_aura_caster: target,
            target,
            aura_caster: target,
            un_aura_spell_id: 1,
            target_spell_id: 42,
            un_aura_amount: 1,
        },
    };
    assert_eq!(settle_removal(&p, &[], 110, &armory, &summons, 10), None);
    assert_eq!(settle_removal(&p, &[], 111, &armory, &summons, 10), Some(Resolution::Abandoned(5)));
    let zero = PendingRemoval { request: UnAura { un_aura_amount: 0, ..p.request }, ..p };
    assert_eq!(settle_removal(&zero, &[], 100, &armory, &summons, 10), Some(Resolution::Correlated(5, vec![])));
}
