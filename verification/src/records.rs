//! The typed records decoded from account bytes: flat records, the
//! tagged-union fleet state, and the child-array record, together with
//! their specification-level views and well-formedness conditions.

use crate::wire::AccountKey;
use vstd::prelude::*;

verus! {

// ---------------------------------------------------------------------------
// Fleet-state variant payloads (fixed-size, plain values)
// ---------------------------------------------------------------------------

#[derive(Clone, Copy, Debug, PartialEq, Eq, Structural)]
pub struct UiStarbaseLoadingBay {
    pub starbase: AccountKey,
    pub last_update: i64,
}

#[derive(Clone, Copy, Debug, PartialEq, Eq, Structural)]
pub struct UiIdle {
    pub sector_x: i64,
    pub sector_y: i64,
}

#[derive(Clone, Copy, Debug, PartialEq, Eq, Structural)]
pub struct UiMineAsteroid {
    pub asteroid: AccountKey,
    pub resource: AccountKey,
    pub start: i64,
    pub end: i64,
    pub amount_mined: u64,
    pub last_update: i64,
}

#[derive(Clone, Copy, Debug, PartialEq, Eq, Structural)]
pub struct UiMoveWarp {
    pub from_sector_x: i64,
    pub from_sector_y: i64,
    pub to_sector_x: i64,
    pub to_sector_y: i64,
    pub warp_start: i64,
    pub warp_finish: i64,
}

#[derive(Clone, Copy, Debug, PartialEq, Eq, Structural)]
pub struct UiMoveSubwarp {
    pub from_sector_x: i64,
    pub from_sector_y: i64,
    pub to_sector_x: i64,
    pub to_sector_y: i64,
    pub current_sector_x: i64,
    pub current_sector_y: i64,
    pub departure_time: i64,
    pub arrival_time: i64,
    pub fuel_expenditure: u64,
    pub last_update: i64,
}

#[derive(Clone, Copy, Debug, PartialEq, Eq, Structural)]
pub struct UiRespawn {
    pub sector_x: i64,
    pub sector_y: i64,
    pub start: i64,
}

/// The tagged-union state of a fleet: a 1-byte tag selects one of six
/// mutually exclusive payload shapes. Tags outside 0..=5 are a decode
/// error, never a silent default.
#[derive(Clone, Copy, Debug, PartialEq, Eq, Structural)]
pub enum UiFleetState {
    StarbaseLoadingBay(UiStarbaseLoadingBay),
    Idle(UiIdle),
    MineAsteroid(UiMineAsteroid),
    MoveWarp(UiMoveWarp),
    MoveSubwarp(UiMoveSubwarp),
    Respawn(UiRespawn),
}

// ---------------------------------------------------------------------------
// Fixed-size ship statistics blocks
// ---------------------------------------------------------------------------

#[derive(Clone, Copy, Debug, PartialEq, Eq, Structural)]
pub struct UiShipCounts {
    pub total: u32,
    pub updated: u32,
    pub xx_small: u16,
    pub x_small: u16,
    pub small: u16,
    pub medium: u16,
    pub large: u16,
    pub capital: u16,
    pub commander: u16,
    pub titan: u16,
}

#[derive(Clone, Copy, Debug, PartialEq, Eq, Structural)]
pub struct UiMovementStats {
    pub subwarp_speed: u32,
    pub warp_speed: u32,
    pub max_warp_distance: u16,
    pub warp_cool_down: u16,
    pub subwarp_fuel_consumption_rate: u32,
    pub warp_fuel_consumption_rate: u32,
    pub planet_exit_fuel_amount: u32,
}

#[derive(Clone, Copy, Debug, PartialEq, Eq, Structural)]
pub struct UiCargoStats {
    pub cargo_capacity: u32,
    pub fuel_capacity: u32,
    pub ammo_capacity: u32,
    pub ammo_consumption_rate: u32,
    pub food_consumption_rate: u32,
    pub mining_rate: u32,
    pub upgrade_rate: u32,
    pub cargo_transfer_rate: u32,
    pub tractor_beam_gather_rate: u32,
}

#[derive(Clone, Copy, Debug, PartialEq, Eq, Structural)]
pub struct UiMiscStats {
    pub required_crew: u16,
    pub passenger_capacity: u16,
    pub crew_count: u16,
    pub rented_crew: u16,
    pub respawn_time: u16,
    pub scan_cool_down: u16,
    pub sdu_per_scan: u32,
    pub scan_cost: u32,
    pub placeholder: u32,
    pub placeholder2: u32,
    pub placeholder3: u32,
}

#[derive(Clone, Copy, Debug, PartialEq, Eq, Structural)]
pub struct UiShipStats {
    pub movement_stats: UiMovementStats,
    pub cargo_stats: UiCargoStats,
    pub misc_stats: UiMiscStats,
}

// ---------------------------------------------------------------------------
// Text labels
//
// On the wire a label is a fixed 64-byte array, NUL-padded on the right;
// decoding strips the trailing NULs. A label is well formed when it fits
// the field and carries no trailing NUL of its own, which is exactly what
// decoding can produce.
// ---------------------------------------------------------------------------

/// Width in bytes of every fixed-size text field.
pub const LABEL_WIDTH: usize = 64;

pub open spec fn wf_label(l: Seq<u8>) -> bool {
    &&& l.len() <= LABEL_WIDTH
    &&& l.len() > 0 ==> l[l.len() - 1] != 0
}

// ---------------------------------------------------------------------------
// Flat records and the child-array record
// ---------------------------------------------------------------------------

/// A decoded fleet account.
#[derive(Clone, Debug, PartialEq)]
pub struct UiFleet {
    pub version: u8,
    pub game_id: AccountKey,
    pub owner_profile: AccountKey,
    pub fleet_ships: AccountKey,
    pub sub_profile: AccountKey,
    pub sub_profile_invalidator: AccountKey,
    pub faction: u8,
    pub fleet_label: Vec<u8>,
    pub ship_counts: UiShipCounts,
    pub warp_cooldown_expires_at: i64,
    pub scan_cooldown_expires_at: i64,
    pub stats: UiShipStats,
    pub cargo_hold: AccountKey,
    pub fuel_tank: AccountKey,
    pub ammo_bank: AccountKey,
    pub update_id: u64,
    pub state: UiFleetState,
}

/// Specification-level image of a fleet record.
pub struct UiFleetV {
    pub version: u8,
    pub game_id: AccountKey,
    pub owner_profile: AccountKey,
    pub fleet_ships: AccountKey,
    pub sub_profile: AccountKey,
    pub sub_profile_invalidator: AccountKey,
    pub faction: u8,
    pub fleet_label: Seq<u8>,
    pub ship_counts: UiShipCounts,
    pub warp_cooldown_expires_at: i64,
    pub scan_cooldown_expires_at: i64,
    pub stats: UiShipStats,
    pub cargo_hold: AccountKey,
    pub fuel_tank: AccountKey,
    pub ammo_bank: AccountKey,
    pub update_id: u64,
    pub state: UiFleetState,
}

impl View for UiFleet {
    type V = UiFleetV;

    open spec fn view(&self) -> UiFleetV {
        UiFleetV {
            version: self.version,
            game_id: self.game_id,
            owner_profile: self.owner_profile,
            fleet_ships: self.fleet_ships,
            sub_profile: self.sub_profile,
            sub_profile_invalidator: self.sub_profile_invalidator,
            faction: self.faction,
            fleet_label: self.fleet_label@,
            ship_counts: self.ship_counts,
            warp_cooldown_expires_at: self.warp_cooldown_expires_at,
            scan_cooldown_expires_at: self.scan_cooldown_expires_at,
            stats: self.stats,
            cargo_hold: self.cargo_hold,
            fuel_tank: self.fuel_tank,
            ammo_bank: self.ammo_bank,
            update_id: self.update_id,
            state: self.state,
        }
    }
}

impl UiFleetV {
    pub open spec fn wf(self) -> bool {
        wf_label(self.fleet_label)
    }
}

/// A decoded star account.
#[derive(Clone, Debug, PartialEq)]
pub struct Star {
    pub version: u8,
    pub game_id: AccountKey,
    pub name: Vec<u8>,
    pub sector_x: i64,
    pub sector_y: i64,
}

pub struct StarV {
    pub version: u8,
    pub game_id: AccountKey,
    pub name: Seq<u8>,
    pub sector_x: i64,
    pub sector_y: i64,
}

impl View for Star {
    type V = StarV;

    open spec fn view(&self) -> StarV {
        StarV {
            version: self.version,
            game_id: self.game_id,
            name: self.name@,
            sector_x: self.sector_x,
            sector_y: self.sector_y,
        }
    }
}

impl StarV {
    pub open spec fn wf(self) -> bool {
        wf_label(self.name)
    }
}

/// A decoded ship account.
#[derive(Clone, Debug, PartialEq)]
pub struct Ship {
    pub version: u8,
    pub game_id: AccountKey,
    pub mint: AccountKey,
    pub name: Vec<u8>,
    pub size_class: u8,
}

pub struct ShipV {
    pub version: u8,
    pub game_id: AccountKey,
    pub mint: AccountKey,
    pub name: Seq<u8>,
    pub size_class: u8,
}

impl View for Ship {
    type V = ShipV;

    open spec fn view(&self) -> ShipV {
        ShipV {
            version: self.version,
            game_id: self.game_id,
            mint: self.mint,
            name: self.name@,
            size_class: self.size_class,
        }
    }
}

impl ShipV {
    pub open spec fn wf(self) -> bool {
        wf_label(self.name)
    }
}

/// A decoded rental-contract account: a flat record of plain values.
#[derive(Clone, Copy, Debug, PartialEq, Eq, Structural)]
pub struct ContractState {
    pub version: u8,
    pub to_close: bool,
    pub rate: u64,
    pub duration_min: u64,
    pub duration_max: u64,
    pub payment_freq: u8,
    pub fleet: AccountKey,
    pub game_id: AccountKey,
    pub current_rental_state: AccountKey,
    pub owner: AccountKey,
    pub owner_token_account: AccountKey,
    pub owner_profile: AccountKey,
    pub bump: u8,
}

/// One entry of a fleet's ship list: a fixed-layout child record,
/// addressed externally by (parent identifier, position).
#[derive(Clone, Copy, Debug, PartialEq, Eq, Structural)]
pub struct FleetShipsInfo {
    pub ship: AccountKey,
    pub amount: u32,
}

/// A decoded fleet-ships account: the parent declares how many child
/// entries follow it in the same byte stream.
#[derive(Clone, Debug, PartialEq)]
pub struct FleetShips {
    pub version: u8,
    pub fleet: AccountKey,
    pub fleet_ships_info_count: u32,
    pub ships: Vec<FleetShipsInfo>,
}

pub struct FleetShipsV {
    pub version: u8,
    pub fleet: AccountKey,
    pub fleet_ships_info_count: u32,
    pub ships: Seq<FleetShipsInfo>,
}

impl View for FleetShips {
    type V = FleetShipsV;

    open spec fn view(&self) -> FleetShipsV {
        FleetShipsV {
            version: self.version,
            fleet: self.fleet,
            fleet_ships_info_count: self.fleet_ships_info_count,
            ships: self.ships@,
        }
    }
}

impl FleetShipsV {
    /// The declared count and the entries actually held agree.
    pub open spec fn wf(self) -> bool {
        self.ships.len() == self.fleet_ships_info_count
    }
}

/// One decoded record of any known type.
#[derive(Clone, Debug, PartialEq)]
pub enum TypedRecord {
    Fleet(UiFleet),
    FleetShips(FleetShips),
    Star(Star),
    Ship(Ship),
    Contract(ContractState),
}

pub enum TypedRecordV {
    Fleet(UiFleetV),
    FleetShips(FleetShipsV),
    Star(StarV),
    Ship(ShipV),
    Contract(ContractState),
}

impl View for TypedRecord {
    type V = TypedRecordV;

    open spec fn view(&self) -> TypedRecordV {
        match self {
            TypedRecord::Fleet(f) => TypedRecordV::Fleet(f@),
            TypedRecord::FleetShips(f) => TypedRecordV::FleetShips(f@),
            TypedRecord::Star(s) => TypedRecordV::Star(s@),
            TypedRecord::Ship(s) => TypedRecordV::Ship(s@),
            TypedRecord::Contract(c) => TypedRecordV::Contract(*c),
        }
    }
}

} // verus!
