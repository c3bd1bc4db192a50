//! The discriminator registry: a static mapping from the 8-byte type tag
//! at the front of an account's data to the record type it selects. Built
//! once, never mutated; adding a record type means adding one entry here.
//!
//! A tag is held as the little-endian 64-bit value of its 8 bytes, so a
//! registry entry is one plain integer constant.

use vstd::bytes::spec_u64_from_le_bytes;
use vstd::prelude::*;

verus! {

/// Tag of a fleet account.
pub const FLEET_DISCRIMINATOR: u64 = 0xa388026a30fbcf6d;

/// Tag of a fleet-ships account (the child-array record).
pub const FLEET_SHIPS_DISCRIMINATOR: u64 = 0x6eb98ddef69351fc;

/// Tag of a star account.
pub const STAR_DISCRIMINATOR: u64 = 0x30a294cad0cf83d6;

/// Tag of a ship account.
pub const SHIP_DISCRIMINATOR: u64 = 0x9eea3a18e8f52972;

/// Tag of a rental-contract account.
pub const CONTRACT_STATE_DISCRIMINATOR: u64 = 0x73de74bddf0a8abe;

/// The record types the registry knows.
#[derive(Clone, Copy, Debug, PartialEq, Eq, Structural)]
pub enum RecordKind {
    Fleet,
    FleetShips,
    Star,
    Ship,
    Contract,
}

/// What the registry answers for a tag: the record type it selects, or
/// `None` for the tags of account types outside current interest, which
/// ingestion must skip rather than fail on.
pub open spec fn spec_lookup(tag: u64) -> Option<RecordKind> {
    if tag == FLEET_DISCRIMINATOR {
        Some(RecordKind::Fleet)
    } else if tag == FLEET_SHIPS_DISCRIMINATOR {
        Some(RecordKind::FleetShips)
    } else if tag == STAR_DISCRIMINATOR {
        Some(RecordKind::Star)
    } else if tag == SHIP_DISCRIMINATOR {
        Some(RecordKind::Ship)
    } else if tag == CONTRACT_STATE_DISCRIMINATOR {
        Some(RecordKind::Contract)
    } else {
        None
    }
}

/// Registry lookup. Pure; no side effects.
pub fn lookup(tag: u64) -> (r: Option<RecordKind>)
    ensures
        r == spec_lookup(tag),
{
    if tag == FLEET_DISCRIMINATOR {
        Some(RecordKind::Fleet)
    } else if tag == FLEET_SHIPS_DISCRIMINATOR {
        Some(RecordKind::FleetShips)
    } else if tag == STAR_DISCRIMINATOR {
        Some(RecordKind::Star)
    } else if tag == SHIP_DISCRIMINATOR {
        Some(RecordKind::Ship)
    } else if tag == CONTRACT_STATE_DISCRIMINATOR {
        Some(RecordKind::Contract)
    } else {
        None
    }
}

/// The name of the relation a record type is projected into.
pub fn relation_name(kind: RecordKind) -> (r: &'static str)
    ensures
        kind == RecordKind::Fleet ==> r@ == "fleet"@,
        kind == RecordKind::FleetShips ==> r@ == "fleet_ships"@,
        kind == RecordKind::Star ==> r@ == "star"@,
        kind == RecordKind::Ship ==> r@ == "ship"@,
        kind == RecordKind::Contract ==> r@ == "rental_contract_state"@,
{
    match kind {
        RecordKind::Fleet => "fleet",
        RecordKind::FleetShips => "fleet_ships",
        RecordKind::Star => "star",
        RecordKind::Ship => "ship",
        RecordKind::Contract => "rental_contract_state",
    }
}

/// The tag of an account's data: its first 8 bytes, or `None` when the
/// data is too short to carry one.
pub open spec fn spec_discriminator_of(d: Seq<u8>) -> Option<u64> {
    if d.len() >= 8 {
        Some(spec_u64_from_le_bytes(d.subrange(0, 8)))
    } else {
        None
    }
}

pub fn discriminator_of(d: &[u8]) -> (r: Option<u64>)
    ensures
        r == spec_discriminator_of(d@),
{
    match crate::wire::take_u64(d, 0) {
        Ok((tag, _)) => Some(tag),
        Err(_) => None,
    }
}

} // verus!
