//! Decoding of binary telemetry records.
//!
//! Every record is a fixed sequence of little-endian integer fields chosen by
//! its message type. A unit reference takes nine bytes: a player flag (any
//! nonzero byte marks a player) followed by the eight-byte unit id.
//!
//! | type | record            | layout                                                  | bytes |
//! |------|-------------------|---------------------------------------------------------|-------|
//! | 0    | aura application  | target unit, caster unit, spell id u32, stack amount u32 | 26    |
//! | 1    | aura removal      | remover unit, target unit, aura caster unit, remover spell u32, removed spell u32, amount u32 | 39 |
//! | 2    | loot              | unit id u64, item id u32                                 | 12    |
//! | 3    | summon            | summoned unit, owner unit                                | 18    |

use vstd::prelude::*;

use crate::bytes::{le_value, read_u32_le, read_u64_le};
use crate::dispel::UnAura;
use crate::event::Loot;
use crate::unit::DtoUnit;

verus! {

pub const AURA_APPLICATION_TYPE: u8 = 0;
pub const UN_AURA_TYPE: u8 = 1;
pub const LOOT_TYPE: u8 = 2;
pub const SUMMON_TYPE: u8 = 3;

pub const UNIT_LEN: usize = 9;
pub const AURA_APPLICATION_LEN: usize = 26;
pub const UN_AURA_LEN: usize = 39;
pub const LOOT_LEN: usize = 12;
pub const SUMMON_LEN: usize = 18;

/// Why a record was rejected.
#[derive(Clone, Copy, Debug, PartialEq, Eq, Structural)]
pub enum DecodeError {
    /// The record's length is not the one its type requires.
    LengthMismatch { expected: usize, actual: usize },
    /// The message type is not in the table.
    UnknownType(u8),
}

/// An aura applied to `target` by `caster`, as it arrives on the wire.
#[derive(Clone, Copy, Debug, PartialEq, Eq, Structural)]
pub struct AuraApplicationRecord {
    pub target: DtoUnit,
    pub caster: DtoUnit,
    pub spell_id: u32,
    pub stack_amount: u32,
}

/// `unit` was summoned by `owner`.
#[derive(Clone, Copy, Debug, PartialEq, Eq, Structural)]
pub struct SummonRecord {
    pub unit: DtoUnit,
    pub owner: DtoUnit,
}

/// One decoded record.
#[derive(Clone, Copy, Debug, PartialEq, Eq, Structural)]
pub enum Message {
    AuraApplication(AuraApplicationRecord),
    UnAura(UnAura),
    Loot(Loot),
    Summon(SummonRecord),
}

/// The `u32` at `at`.
pub open spec fn u32_at(b: Seq<u8>, at: int) -> u32 {
    le_value(b.subrange(at, at + 4)) as u32
}

/// The `u64` at `at`.
pub open spec fn u64_at(b: Seq<u8>, at: int) -> u64 {
    le_value(b.subrange(at, at + 8)) as u64
}

/// The unit reference at `at`.
pub open spec fn unit_at(b: Seq<u8>, at: int) -> DtoUnit {
    DtoUnit { is_player: b[at] != 0, unit_id: u64_at(b, at + 1) }
}

/// The length that records of type `message_type` have; none for an unknown type.
pub open spec fn record_len(message_type: u8) -> Option<usize> {
    if message_type == AURA_APPLICATION_TYPE {
        Some(AURA_APPLICATION_LEN)
    } else if message_type == UN_AURA_TYPE {
        Some(UN_AURA_LEN)
    } else if message_type == LOOT_TYPE {
        Some(LOOT_LEN)
    } else if message_type == SUMMON_TYPE {
        Some(SUMMON_LEN)
    } else {
        None
    }
}

/// The fields of a record of type `message_type` whose length is right.
pub open spec fn record_fields(message_type: u8, b: Seq<u8>) -> Message {
    if message_type == AURA_APPLICATION_TYPE {
        Message::AuraApplication(
            AuraApplicationRecord {
                target: unit_at(b, 0),
                caster: unit_at(b, 9),
                spell_id: u32_at(b, 18),
                stack_amount: u32_at(b, 22),
            },
        )
    } else if message_type == UN_AURA_TYPE {
        Message::UnAura(
            UnAura {
                un_aura_caster: unit_at(b, 0),
                target: unit_at(b, 9),
                aura_caster: unit_at(b, 18),
                un_aura_spell_id: u32_at(b, 27),
                target_spell_id: u32_at(b, 31),
                un_aura_amount: u32_at(b, 35),
            },
        )
    } else if message_type == LOOT_TYPE {
        Message::Loot(Loot { unit: u64_at(b, 0), item_id: u32_at(b, 8) })
    } else {
        Message::Summon(SummonRecord { unit: unit_at(b, 0), owner: unit_at(b, 9) })
    }
}

/// What decoding the record `b` of type `message_type` gives.
pub open spec fn decoded(message_type: u8, b: Seq<u8>) -> Result<Message, DecodeError> {
    match record_len(message_type) {
        None => Err(DecodeError::UnknownType(message_type)),
        Some(n) => if b.len() == n {
            Ok(record_fields(message_type, b))
        } else {
            Err(DecodeError::LengthMismatch { expected: n, actual: b.len() as usize })
        },
    }
}

/// Reads the unit reference at `at`.
fn read_unit(b: &[u8], at: usize) -> (r: DtoUnit)
    requires
        at + UNIT_LEN <= b@.len(),
    ensures
        r == unit_at(b@, at as int),
{
    DtoUnit { is_player: b[at] != 0, unit_id: read_u64_le(b, at + 1) }
}

fn check_len(b: &[u8], expected: usize) -> (r: Result<(), DecodeError>)
    ensures
        r is Ok <==> b@.len() == expected,
        r matches Err(e) ==> e == (DecodeError::LengthMismatch { expected, actual: b.len() }),
{
    if b.len() == expected {
        Ok(())
    } else {
        Err(DecodeError::LengthMismatch { expected, actual: b.len() })
    }
}

/// Decodes an aura application record.
pub fn decode_aura_application(b: &[u8]) -> (r: Result<AuraApplicationRecord, DecodeError>)
    ensures
        match decoded(AURA_APPLICATION_TYPE, b@) {
            Ok(Message::AuraApplication(m)) => r == Ok::<AuraApplicationRecord, DecodeError>(m),
            Err(e) => r == Err::<AuraApplicationRecord, DecodeError>(e),
            _ => false,
        },
{
    check_len(b, AURA_APPLICATION_LEN)?;
    Ok(
        AuraApplicationRecord {
            target: read_unit(b, 0),
            caster: read_unit(b, 9),
            spell_id: read_u32_le(b, 18),
            stack_amount: read_u32_le(b, 22),
        },
    )
}

/// Decodes an aura removal record.
pub fn decode_un_aura(b: &[u8]) -> (r: Result<UnAura, DecodeError>)
    ensures
        match decoded(UN_AURA_TYPE, b@) {
            Ok(Message::UnAura(m)) => r == Ok::<UnAura, DecodeError>(m),
            Err(e) => r == Err::<UnAura, DecodeError>(e),
            _ => false,
        },
{
    check_len(b, UN_AURA_LEN)?;
    Ok(
        UnAura {
            un_aura_caster: read_unit(b, 0),
            target: read_unit(b, 9),
            aura_caster: read_unit(b, 18),
            un_aura_spell_id: read_u32_le(b, 27),
            target_spell_id: read_u32_le(b, 31),
            un_aura_amount: read_u32_le(b, 35),
        },
    )
}

/// Decodes a loot record: the eight-byte unit id, then the four-byte item id.
pub fn decode_loot(b: &[u8]) -> (r: Result<Loot, DecodeError>)
    ensures
        match decoded(LOOT_TYPE, b@) {
            Ok(Message::Loot(m)) => r == Ok::<Loot, DecodeError>(m),
            Err(e) => r == Err::<Loot, DecodeError>(e),
            _ => false,
        },
        b@.len() != LOOT_LEN ==> r is Err,
{
    check_len(b, LOOT_LEN)?;
    Ok(Loot { unit: read_u64_le(b, 0), item_id: read_u32_le(b, 8) })
}

/// Decodes a summon record.
pub fn decode_summon(b: &[u8]) -> (r: Result<SummonRecord, DecodeError>)
    ensures
        match decoded(SUMMON_TYPE, b@) {
            Ok(Message::Summon(m)) => r == Ok::<SummonRecord, DecodeError>(m),
            Err(e) => r == Err::<SummonRecord, DecodeError>(e),
            _ => false,
        },
{
    check_len(b, SUMMON_LEN)?;
    Ok(SummonRecord { unit: read_unit(b, 0), owner: read_unit(b, 9) })
}

/// Decodes one record of type `message_type`.
pub fn decode(message_type: u8, b: &[u8]) -> (r: Result<Message, DecodeError>)
    ensures
        r == decoded(message_type, b@),
{
    if message_type == AURA_APPLICATION_TYPE {
        match decode_aura_application(b) {
            Ok(m) => Ok(Message::AuraApplication(m)),
            Err(e) => Err(e),
        }
    } else if message_type == UN_AURA_TYPE {
        match decode_un_aura(b) {
            Ok(m) => Ok(Message::UnAura(m)),
            Err(e) => Err(e),
        }
    } else if message_type == LOOT_TYPE {
        match decode_loot(b) {
            Ok(m) => Ok(Message::Loot(m)),
            Err(e) => Err(e),
        }
    } else if message_type == SUMMON_TYPE {
        match decode_summon(b) {
            Ok(m) => Ok(Message::Summon(m)),
            Err(e) => Err(e),
        }
    } else {
        Err(DecodeError::UnknownType(message_type))
    }
}

/// Reading a loot record from a payload buffer.
pub trait MapLoot {
    fn to_loot(&self) -> Result<Loot, DecodeError>;
}

impl MapLoot for Vec<u8> {
    fn to_loot(&self) -> (r: Result<Loot, DecodeError>)
        ensures
            match decoded(LOOT_TYPE, self@) {
                Ok(Message::Loot(m)) => r == Ok::<Loot, DecodeError>(m),
                Err(e) => r == Err::<Loot, DecodeError>(e),
                _ => false,
            },
            self@.len() != LOOT_LEN ==> r is Err,
    {
        decode_loot(self.as_slice())
    }
}

} // verus!
