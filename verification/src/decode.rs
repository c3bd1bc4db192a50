//! Executable decoders and encoders for the record types, each verified
//! against the specification parsers and encoders in `codec`, plus the
//! round-trip and count-mismatch laws.

use crate::codec::{
    enc_cargo_stats, enc_contract_state, enc_fleet, enc_fleet_ships, enc_fleet_ships_declared,
    enc_fleet_ships_info, enc_fleet_state, enc_idle, enc_label, enc_mine_asteroid, enc_misc_stats,
    enc_move_subwarp, enc_move_warp, enc_movement_stats, enc_respawn, enc_ship, enc_ship_counts,
    enc_ship_list, enc_ship_stats, enc_star, enc_starbase_loading_bay, lemma_enc_ship_list_len,
    lemma_peel_contract_state, lemma_peel_fleet, lemma_peel_fleet_ships,
    lemma_peel_fleet_ships_info, lemma_peel_ship, lemma_peel_ship_list,
    lemma_peel_star, lemma_trim0_wf, parse_cargo_stats, parse_contract_state, parse_fleet,
    parse_fleet_ships, parse_fleet_ships_info, parse_fleet_state, parse_idle, parse_label,
    parse_mine_asteroid, parse_misc_stats, parse_move_subwarp, parse_move_warp,
    parse_movement_stats, parse_respawn, parse_ship, parse_ship_counts, parse_ship_list,
    parse_ship_stats, parse_star, parse_starbase_loading_bay, trim0, zeros,
};
use crate::records::{
    wf_label, ContractState, FleetShips, FleetShipsInfo, FleetShipsV, Ship, ShipV, Star, StarV,
    TypedRecord, TypedRecordV, UiCargoStats, UiFleet, UiFleetState, UiFleetV, UiIdle,
    UiMineAsteroid, UiMiscStats, UiMoveSubwarp, UiMoveWarp, UiMovementStats, UiRespawn,
    UiShipCounts, UiShipStats, UiStarbaseLoadingBay, LABEL_WIDTH,
};
use crate::registry::{
    RecordKind, CONTRACT_STATE_DISCRIMINATOR, FLEET_DISCRIMINATOR, FLEET_SHIPS_DISCRIMINATOR,
    SHIP_DISCRIMINATOR, STAR_DISCRIMINATOR,
};
use crate::wire::{
    enc_key, enc_u32, enc_u64, enc_u8, group_enc_lens, lemma_peel_key, lemma_peel_u32,
    lemma_peel_u64, lemma_peel_u8, lift, put_bool, put_i64, put_key, put_u16, put_u32, put_u64,
    put_u8, take_bool, take_i64, take_key, take_u16, take_u32, take_u64, take_u8, AccountKey,
    DecodeError,
};
use vstd::prelude::*;

verus! {

broadcast use group_enc_lens;

// ---------------------------------------------------------------------------
// Readers for the fixed-size blocks
// ---------------------------------------------------------------------------

pub fn take_starbase_loading_bay(d: &[u8], pos: usize) -> (r: Result<
    (UiStarbaseLoadingBay, usize),
    DecodeError,
>)
    ensures
        lift(r) == parse_starbase_loading_bay(d@, pos as int),
{
    let (starbase, pos) = match take_key(d, pos) {
        Ok(v) => v,
        Err(e) => {
            return Err(e);
        },
    };
    let (last_update, pos) = match take_i64(d, pos) {
        Ok(v) => v,
        Err(e) => {
            return Err(e);
        },
    };
    Ok((UiStarbaseLoadingBay { starbase, last_update }, pos))
}

pub fn take_idle(d: &[u8], pos: usize) -> (r: Result<(UiIdle, usize), DecodeError>)
    ensures
        lift(r) == parse_idle(d@, pos as int),
{
    let (sector_x, pos) = match take_i64(d, pos) {
        Ok(v) => v,
        Err(e) => {
            return Err(e);
        },
    };
    let (sector_y, pos) = match take_i64(d, pos) {
        Ok(v) => v,
        Err(e) => {
            return Err(e);
        },
    };
    Ok((UiIdle { sector_x, sector_y }, pos))
}

pub fn take_mine_asteroid(d: &[u8], pos: usize) -> (r: Result<(UiMineAsteroid, usize), DecodeError>)
    ensures
        lift(r) == parse_mine_asteroid(d@, pos as int),
{
    let (asteroid, pos) = match take_key(d, pos) {
        Ok(v) => v,
        Err(e) => {
            return Err(e);
        },
    };
    let (resource, pos) = match take_key(d, pos) {
        Ok(v) => v,
        Err(e) => {
            return Err(e);
        },
    };
    let (start, pos) = match take_i64(d, pos) {
        Ok(v) => v,
        Err(e) => {
            return Err(e);
        },
    };
    let (end, pos) = match take_i64(d, pos) {
        Ok(v) => v,
        Err(e) => {
            return Err(e);
        },
    };
    let (amount_mined, pos) = match take_u64(d, pos) {
        Ok(v) => v,
        Err(e) => {
            return Err(e);
        },
    };
    let (last_update, pos) = match take_i64(d, pos) {
        Ok(v) => v,
        Err(e) => {
            return Err(e);
        },
    };
    Ok((UiMineAsteroid { asteroid, resource, start, end, amount_mined, last_update }, pos))
}

pub fn take_move_warp(d: &[u8], pos: usize) -> (r: Result<(UiMoveWarp, usize), DecodeError>)
    ensures
        lift(r) == parse_move_warp(d@, pos as int),
{
    let (from_sector_x, pos) = match take_i64(d, pos) {
        Ok(v) => v,
        Err(e) => {
            return Err(e);
        },
    };
    let (from_sector_y, pos) = match take_i64(d, pos) {
        Ok(v) => v,
        Err(e) => {
            return Err(e);
        },
    };
    let (to_sector_x, pos) = match take_i64(d, pos) {
        Ok(v) => v,
        Err(e) => {
            return Err(e);
        },
    };
    let (to_sector_y, pos) = match take_i64(d, pos) {
        Ok(v) => v,
        Err(e) => {
            return Err(e);
        },
    };
    let (warp_start, pos) = match take_i64(d, pos) {
        Ok(v) => v,
        Err(e) => {
            return Err(e);
        },
    };
    let (warp_finish, pos) = match take_i64(d, pos) {
        Ok(v) => v,
        Err(e) => {
            return Err(e);
        },
    };
    Ok(
        (
            UiMoveWarp {
                from_sector_x,
                from_sector_y,
                to_sector_x,
                to_sector_y,
                warp_start,
                warp_finish,
            },
            pos,
        ),
    )
}

pub fn take_move_subwarp(d: &[u8], pos: usize) -> (r: Result<(UiMoveSubwarp, usize), DecodeError>)
    ensures
        lift(r) == parse_move_subwarp(d@, pos as int),
{
    let (from_sector_x, pos) = match take_i64(d, pos) {
        Ok(v) => v,
        Err(e) => {
            return Err(e);
        },
    };
    let (from_sector_y, pos) = match take_i64(d, pos) {
        Ok(v) => v,
        Err(e) => {
            return Err(e);
        },
    };
    let (to_sector_x, pos) = match take_i64(d, pos) {
        Ok(v) => v,
        Err(e) => {
            return Err(e);
        },
    };
    let (to_sector_y, pos) = match take_i64(d, pos) {
        Ok(v) => v,
        Err(e) => {
            return Err(e);
        },
    };
    let (current_sector_x, pos) = match take_i64(d, pos) {
        Ok(v) => v,
        Err(e) => {
            return Err(e);
        },
    };
    let (current_sector_y, pos) = match take_i64(d, pos) {
        Ok(v) => v,
        Err(e) => {
            return Err(e);
        },
    };
    let (departure_time, pos) = match take_i64(d, pos) {
        Ok(v) => v,
        Err(e) => {
            return Err(e);
        },
    };
    let (arrival_time, pos) = match take_i64(d, pos) {
        Ok(v) => v,
        Err(e) => {
            return Err(e);
        },
    };
    let (fuel_expenditure, pos) = match take_u64(d, pos) {
        Ok(v) => v,
        Err(e) => {
            return Err(e);
        },
    };
    let (last_update, pos) = match take_i64(d, pos) {
        Ok(v) => v,
        Err(e) => {
            return Err(e);
        },
    };
    Ok(
        (
            UiMoveSubwarp {
                from_sector_x,
                from_sector_y,
                to_sector_x,
                to_sector_y,
                current_sector_x,
                current_sector_y,
                departure_time,
                arrival_time,
                fuel_expenditure,
                last_update,
            },
            pos,
        ),
    )
}

pub fn take_respawn(d: &[u8], pos: usize) -> (r: Result<(UiRespawn, usize), DecodeError>)
    ensures
        lift(r) == parse_respawn(d@, pos as int),
{
    let (sector_x, pos) = match take_i64(d, pos) {
        Ok(v) => v,
        Err(e) => {
            return Err(e);
        },
    };
    let (sector_y, pos) = match take_i64(d, pos) {
        Ok(v) => v,
        Err(e) => {
            return Err(e);
        },
    };
    let (start, pos) = match take_i64(d, pos) {
        Ok(v) => v,
        Err(e) => {
            return Err(e);
        },
    };
    Ok((UiRespawn { sector_x, sector_y, start }, pos))
}

/// Reads the 1-byte variant tag and the payload it selects. Tags outside
/// the defined range fail with `UnknownVariant`, never a default.
pub fn take_fleet_state(d: &[u8], pos: usize) -> (r: Result<(UiFleetState, usize), DecodeError>)
    ensures
        lift(r) == parse_fleet_state(d@, pos as int),
{
    let (tag, pos) = match take_u8(d, pos) {
        Ok(v) => v,
        Err(e) => {
            return Err(e);
        },
    };
    if tag == 0 {
        match take_starbase_loading_bay(d, pos) {
            Ok((x, pos)) => Ok((UiFleetState::StarbaseLoadingBay(x), pos)),
            Err(e) => Err(e),
        }
    } else if tag == 1 {
        match take_idle(d, pos) {
            Ok((x, pos)) => Ok((UiFleetState::Idle(x), pos)),
            Err(e) => Err(e),
        }
    } else if tag == 2 {
        match take_mine_asteroid(d, pos) {
            Ok((x, pos)) => Ok((UiFleetState::MineAsteroid(x), pos)),
            Err(e) => Err(e),
        }
    } else if tag == 3 {
        match take_move_warp(d, pos) {
            Ok((x, pos)) => Ok((UiFleetState::MoveWarp(x), pos)),
            Err(e) => Err(e),
        }
    } else if tag == 4 {
        match take_move_subwarp(d, pos) {
            Ok((x, pos)) => Ok((UiFleetState::MoveSubwarp(x), pos)),
            Err(e) => Err(e),
        }
    } else if tag == 5 {
        match take_respawn(d, pos) {
            Ok((x, pos)) => Ok((UiFleetState::Respawn(x), pos)),
            Err(e) => Err(e),
        }
    } else {
        Err(DecodeError::UnknownVariant(tag))
    }
}

pub fn take_ship_counts(d: &[u8], pos: usize) -> (r: Result<(UiShipCounts, usize), DecodeError>)
    ensures
        lift(r) == parse_ship_counts(d@, pos as int),
{
    let (total, pos) = match take_u32(d, pos) {
        Ok(v) => v,
        Err(e) => {
            return Err(e);
        },
    };
    let (updated, pos) = match take_u32(d, pos) {
        Ok(v) => v,
        Err(e) => {
            return Err(e);
        },
    };
    let (xx_small, pos) = match take_u16(d, pos) {
        Ok(v) => v,
        Err(e) => {
            return Err(e);
        },
    };
    let (x_small, pos) = match take_u16(d, pos) {
        Ok(v) => v,
        Err(e) => {
            return Err(e);
        },
    };
    let (small, pos) = match take_u16(d, pos) {
        Ok(v) => v,
        Err(e) => {
            return Err(e);
        },
    };
    let (medium, pos) = match take_u16(d, pos) {
        Ok(v) => v,
        Err(e) => {
            return Err(e);
        },
    };
    let (large, pos) = match take_u16(d, pos) {
        Ok(v) => v,
        Err(e) => {
            return Err(e);
        },
    };
    let (capital, pos) = match take_u16(d, pos) {
        Ok(v) => v,
        Err(e) => {
            return Err(e);
        },
    };
    let (commander, pos) = match take_u16(d, pos) {
        Ok(v) => v,
        Err(e) => {
            return Err(e);
        },
    };
    let (titan, pos) = match take_u16(d, pos) {
        Ok(v) => v,
        Err(e) => {
            return Err(e);
        },
    };
    Ok(
        (
            UiShipCounts {
                total,
                updated,
                xx_small,
                x_small,
                small,
                medium,
                large,
                capital,
                commander,
                titan,
            },
            pos,
        ),
    )
}

pub fn take_movement_stats(d: &[u8], pos: usize) -> (r: Result<
    (UiMovementStats, usize),
    DecodeError,
>)
    ensures
        lift(r) == parse_movement_stats(d@, pos as int),
{
    let (subwarp_speed, pos) = match take_u32(d, pos) {
        Ok(v) => v,
        Err(e) => {
            return Err(e);
        },
    };
    let (warp_speed, pos) = match take_u32(d, pos) {
        Ok(v) => v,
        Err(e) => {
            return Err(e);
        },
    };
    let (max_warp_distance, pos) = match take_u16(d, pos) {
        Ok(v) => v,
        Err(e) => {
            return Err(e);
        },
    };
    let (warp_cool_down, pos) = match take_u16(d, pos) {
        Ok(v) => v,
        Err(e) => {
            return Err(e);
        },
    };
    let (subwarp_fuel_consumption_rate, pos) = match take_u32(d, pos) {
        Ok(v) => v,
        Err(e) => {
            return Err(e);
        },
    };
    let (warp_fuel_consumption_rate, pos) = match take_u32(d, pos) {
        Ok(v) => v,
        Err(e) => {
            return Err(e);
        },
    };
    let (planet_exit_fuel_amount, pos) = match take_u32(d, pos) {
        Ok(v) => v,
        Err(e) => {
            return Err(e);
        },
    };
    Ok(
        (
            UiMovementStats {
                subwarp_speed,
                warp_speed,
                max_warp_distance,
                warp_cool_down,
                subwarp_fuel_consumption_rate,
                warp_fuel_consumption_rate,
                planet_exit_fuel_amount,
            },
            pos,
        ),
    )
}

pub fn take_cargo_stats(d: &[u8], pos: usize) -> (r: Result<(UiCargoStats, usize), DecodeError>)
    ensures
        lift(r) == parse_cargo_stats(d@, pos as int),
{
    let (cargo_capacity, pos) = match take_u32(d, pos) {
        Ok(v) => v,
        Err(e) => {
            return Err(e);
        },
    };
    let (fuel_capacity, pos) = match take_u32(d, pos) {
        Ok(v) => v,
        Err(e) => {
            return Err(e);
        },
    };
    let (ammo_capacity, pos) = match take_u32(d, pos) {
        Ok(v) => v,
        Err(e) => {
            return Err(e);
        },
    };
    let (ammo_consumption_rate, pos) = match take_u32(d, pos) {
        Ok(v) => v,
        Err(e) => {
            return Err(e);
        },
    };
    let (food_consumption_rate, pos) = match take_u32(d, pos) {
        Ok(v) => v,
        Err(e) => {
            return Err(e);
        },
    };
    let (mining_rate, pos) = match take_u32(d, pos) {
        Ok(v) => v,
        Err(e) => {
            return Err(e);
        },
    };
    let (upgrade_rate, pos) = match take_u32(d, pos) {
        Ok(v) => v,
        Err(e) => {
            return Err(e);
        },
    };
    let (cargo_transfer_rate, pos) = match take_u32(d, pos) {
        Ok(v) => v,
        Err(e) => {
            return Err(e);
        },
    };
    let (tractor_beam_gather_rate, pos) = match take_u32(d, pos) {
        Ok(v) => v,
        Err(e) => {
            return Err(e);
        },
    };
    Ok(
        (
            UiCargoStats {
                cargo_capacity,
                fuel_capacity,
                ammo_capacity,
                ammo_consumption_rate,
                food_consumption_rate,
                mining_rate,
                upgrade_rate,
                cargo_transfer_rate,
                tractor_beam_gather_rate,
            },
            pos,
        ),
    )
}

pub fn take_misc_stats(d: &[u8], pos: usize) -> (r: Result<(UiMiscStats, usize), DecodeError>)
    ensures
        lift(r) == parse_misc_stats(d@, pos as int),
{
    let (required_crew, pos) = match take_u16(d, pos) {
        Ok(v) => v,
        Err(e) => {
            return Err(e);
        },
    };
    let (passenger_capacity, pos) = match take_u16(d, pos) {
        Ok(v) => v,
        Err(e) => {
            return Err(e);
        },
    };
    let (crew_count, pos) = match take_u16(d, pos) {
        Ok(v) => v,
        Err(e) => {
            return Err(e);
        },
    };
    let (rented_crew, pos) = match take_u16(d, pos) {
        Ok(v) => v,
        Err(e) => {
            return Err(e);
        },
    };
    let (respawn_time, pos) = match take_u16(d, pos) {
        Ok(v) => v,
        Err(e) => {
            return Err(e);
        },
    };
    let (scan_cool_down, pos) = match take_u16(d, pos) {
        Ok(v) => v,
        Err(e) => {
            return Err(e);
        },
    };
    let (sdu_per_scan, pos) = match take_u32(d, pos) {
        Ok(v) => v,
        Err(e) => {
            return Err(e);
        },
    };
    let (scan_cost, pos) = match take_u32(d, pos) {
        Ok(v) => v,
        Err(e) => {
            return Err(e);
        },
    };
    let (placeholder, pos) = match take_u32(d, pos) {
        Ok(v) => v,
        Err(e) => {
            return Err(e);
        },
    };
    let (placeholder2, pos) = match take_u32(d, pos) {
        Ok(v) => v,
        Err(e) => {
            return Err(e);
        },
    };
    let (placeholder3, pos) = match take_u32(d, pos) {
        Ok(v) => v,
        Err(e) => {
            return Err(e);
        },
    };
    Ok(
        (
            UiMiscStats {
                required_crew,
                passenger_capacity,
                crew_count,
                rented_crew,
                respawn_time,
                scan_cool_down,
                sdu_per_scan,
                scan_cost,
                placeholder,
                placeholder2,
                placeholder3,
            },
            pos,
        ),
    )
}

pub fn take_ship_stats(d: &[u8], pos: usize) -> (r: Result<(UiShipStats, usize), DecodeError>)
    ensures
        lift(r) == parse_ship_stats(d@, pos as int),
{
    let (movement_stats, pos) = match take_movement_stats(d, pos) {
        Ok(v) => v,
        Err(e) => {
            return Err(e);
        },
    };
    let (cargo_stats, pos) = match take_cargo_stats(d, pos) {
        Ok(v) => v,
        Err(e) => {
            return Err(e);
        },
    };
    let (misc_stats, pos) = match take_misc_stats(d, pos) {
        Ok(v) => v,
        Err(e) => {
            return Err(e);
        },
    };
    Ok((UiShipStats { movement_stats, cargo_stats, misc_stats }, pos))
}

// ---------------------------------------------------------------------------
// Text fields
// ---------------------------------------------------------------------------

/// Reads a fixed-width text field and strips its trailing NUL padding.
pub fn take_label(d: &[u8], pos: usize) -> (r: Result<(Vec<u8>, usize), DecodeError>)
    ensures
        match r {
            Ok((v, p)) => parse_label(d@, pos as int) == Ok::<(Seq<u8>, int), DecodeError>(
                (v@, p as int),
            ) && wf_label(v@),
            Err(e) => parse_label(d@, pos as int) == Err::<(Seq<u8>, int), DecodeError>(e),
        },
{
    if pos <= d.len() && d.len() - pos >= LABEL_WIDTH {
        let ghost field = d@.subrange(pos as int, pos + LABEL_WIDTH);
        let mut v: Vec<u8> = Vec::new();
        let mut i: usize = 0;
        while i < LABEL_WIDTH
            invariant
                pos + LABEL_WIDTH <= d@.len(),
                d@.len() <= usize::MAX,
                i <= LABEL_WIDTH,
                field == d@.subrange(pos as int, pos + LABEL_WIDTH),
                v@ == field.subrange(0, i as int),
            decreases LABEL_WIDTH - i,
        {
            v.push(d[pos + i]);
            i = i + 1;
            proof {
                assert(v@ =~= field.subrange(0, i as int));
            }
        }
        proof {
            assert(v@ =~= field);
        }
        while v.len() > 0 && v[v.len() - 1] == 0
            invariant
                trim0(v@) == trim0(field),
                v@.len() <= LABEL_WIDTH,
            decreases v@.len(),
        {
            let ghost before = v@;
            v.pop();
            proof {
                assert(v@ =~= before.drop_last());
            }
        }
        proof {
            lemma_trim0_wf(field);
        }
        Ok((v, pos + LABEL_WIDTH))
    } else {
        Err(DecodeError::TruncatedInput)
    }
}

/// Writes a label into its fixed-width field, NUL-padded on the right.
pub fn put_label(out: &mut Vec<u8>, l: &Vec<u8>)
    requires
        l@.len() <= LABEL_WIDTH,
    ensures
        final(out)@ == old(out)@ + enc_label(l@),
{
    let mut i: usize = 0;
    while i < l.len()
        invariant
            i <= l@.len(),
            l@.len() <= LABEL_WIDTH,
            out@ == old(out)@ + l@.subrange(0, i as int),
        decreases l@.len() - i,
    {
        out.push(l[i]);
        i = i + 1;
        proof {
            assert(out@ =~= old(out)@ + l@.subrange(0, i as int));
        }
    }
    proof {
        assert(l@.subrange(0, l@.len() as int) =~= l@);
    }
    let mut j: usize = l.len();
    while j < LABEL_WIDTH
        invariant
            l@.len() <= j <= LABEL_WIDTH,
            out@ == old(out)@ + l@ + zeros((j - l@.len()) as nat),
        decreases LABEL_WIDTH - j,
    {
        out.push(0);
        j = j + 1;
        proof {
            assert(out@ =~= old(out)@ + l@ + zeros((j - l@.len()) as nat));
        }
    }
    proof {
        assert(old(out)@ + l@ + zeros((LABEL_WIDTH - l@.len()) as nat) =~= old(out)@ + enc_label(
            l@,
        ));
    }
}

// ---------------------------------------------------------------------------
// Record decoders
//
// Each takes the full account data, discriminator included, exactly as
// the ledger delivers it; dispatch has already matched the discriminator,
// and the decoder skips those 8 bytes.
// ---------------------------------------------------------------------------

pub fn decode_fleet(d: &[u8]) -> (r: Result<UiFleet, DecodeError>)
    ensures
        match r {
            Ok(f) => (match parse_fleet(d@, 0) {
                Ok((v, _)) => v == f@,
                Err(_) => false,
            }) && f@.wf(),
            Err(e) => parse_fleet(d@, 0) == Err::<(UiFleetV, int), DecodeError>(e),
        },
{
    let (_, pos) = match take_u64(d, 0) {
        Ok(v) => v,
        Err(e) => {
            return Err(e);
        },
    };
    let (version, pos) = match take_u8(d, pos) {
        Ok(v) => v,
        Err(e) => {
            return Err(e);
        },
    };
    let (game_id, pos) = match take_key(d, pos) {
        Ok(v) => v,
        Err(e) => {
            return Err(e);
        },
    };
    let (owner_profile, pos) = match take_key(d, pos) {
        Ok(v) => v,
        Err(e) => {
            return Err(e);
        },
    };
    let (fleet_ships, pos) = match take_key(d, pos) {
        Ok(v) => v,
        Err(e) => {
            return Err(e);
        },
    };
    let (sub_profile, pos) = match take_key(d, pos) {
        Ok(v) => v,
        Err(e) => {
            return Err(e);
        },
    };
    let (sub_profile_invalidator, pos) = match take_key(d, pos) {
        Ok(v) => v,
        Err(e) => {
            return Err(e);
        },
    };
    let (faction, pos) = match take_u8(d, pos) {
        Ok(v) => v,
        Err(e) => {
            return Err(e);
        },
    };
    let (fleet_label, pos) = match take_label(d, pos) {
        Ok(v) => v,
        Err(e) => {
            return Err(e);
        },
    };
    let (ship_counts, pos) = match take_ship_counts(d, pos) {
        Ok(v) => v,
        Err(e) => {
            return Err(e);
        },
    };
    let (warp_cooldown_expires_at, pos) = match take_i64(d, pos) {
        Ok(v) => v,
        Err(e) => {
            return Err(e);
        },
    };
    let (scan_cooldown_expires_at, pos) = match take_i64(d, pos) {
        Ok(v) => v,
        Err(e) => {
            return Err(e);
        },
    };
    let (stats, pos) = match take_ship_stats(d, pos) {
        Ok(v) => v,
        Err(e) => {
            return Err(e);
        },
    };
    let (cargo_hold, pos) = match take_key(d, pos) {
        Ok(v) => v,
        Err(e) => {
            return Err(e);
        },
    };
    let (fuel_tank, pos) = match take_key(d, pos) {
        Ok(v) => v,
        Err(e) => {
            return Err(e);
        },
    };
    let (ammo_bank, pos) = match take_key(d, pos) {
        Ok(v) => v,
        Err(e) => {
            return Err(e);
        },
    };
    let (update_id, pos) = match take_u64(d, pos) {
        Ok(v) => v,
        Err(e) => {
            return Err(e);
        },
    };
    let (state, _) = match take_fleet_state(d, pos) {
        Ok(v) => v,
        Err(e) => {
            return Err(e);
        },
    };
    Ok(
        UiFleet {
            version,
            game_id,
            owner_profile,
            fleet_ships,
            sub_profile,
            sub_profile_invalidator,
            faction,
            fleet_label,
            ship_counts,
            warp_cooldown_expires_at,
            scan_cooldown_expires_at,
            stats,
            cargo_hold,
            fuel_tank,
            ammo_bank,
            update_id,
            state,
        },
    )
}

pub fn decode_star(d: &[u8]) -> (r: Result<Star, DecodeError>)
    ensures
        match r {
            Ok(s) => (match parse_star(d@, 0) {
                Ok((v, _)) => v == s@,
                Err(_) => false,
            }) && s@.wf(),
            Err(e) => parse_star(d@, 0) == Err::<(StarV, int), DecodeError>(e),
        },
{
    let (_, pos) = match take_u64(d, 0) {
        Ok(v) => v,
        Err(e) => {
            return Err(e);
        },
    };
    let (version, pos) = match take_u8(d, pos) {
        Ok(v) => v,
        Err(e) => {
            return Err(e);
        },
    };
    let (game_id, pos) = match take_key(d, pos) {
        Ok(v) => v,
        Err(e) => {
            return Err(e);
        },
    };
    let (name, pos) = match take_label(d, pos) {
        Ok(v) => v,
        Err(e) => {
            return Err(e);
        },
    };
    let (sector_x, pos) = match take_i64(d, pos) {
        Ok(v) => v,
        Err(e) => {
            return Err(e);
        },
    };
    let (sector_y, _) = match take_i64(d, pos) {
        Ok(v) => v,
        Err(e) => {
            return Err(e);
        },
    };
    Ok(Star { version, game_id, name, sector_x, sector_y })
}

pub fn decode_ship(d: &[u8]) -> (r: Result<Ship, DecodeError>)
    ensures
        match r {
            Ok(s) => (match parse_ship(d@, 0) {
                Ok((v, _)) => v == s@,
                Err(_) => false,
            }) && s@.wf(),
            Err(e) => parse_ship(d@, 0) == Err::<(ShipV, int), DecodeError>(e),
        },
{
    let (_, pos) = match take_u64(d, 0) {
        Ok(v) => v,
        Err(e) => {
            return Err(e);
        },
    };
    let (version, pos) = match take_u8(d, pos) {
        Ok(v) => v,
        Err(e) => {
            return Err(e);
        },
    };
    let (game_id, pos) = match take_key(d, pos) {
        Ok(v) => v,
        Err(e) => {
            return Err(e);
        },
    };
    let (mint, pos) = match take_key(d, pos) {
        Ok(v) => v,
        Err(e) => {
            return Err(e);
        },
    };
    let (name, pos) = match take_label(d, pos) {
        Ok(v) => v,
        Err(e) => {
            return Err(e);
        },
    };
    let (size_class, _) = match take_u8(d, pos) {
        Ok(v) => v,
        Err(e) => {
            return Err(e);
        },
    };
    Ok(Ship { version, game_id, mint, name, size_class })
}

pub fn decode_contract_state(d: &[u8]) -> (r: Result<ContractState, DecodeError>)
    ensures
        match r {
            Ok(c) => (match parse_contract_state(d@, 0) {
                Ok((v, _)) => v == c,
                Err(_) => false,
            }),
            Err(e) => parse_contract_state(d@, 0) == Err::<(ContractState, int), DecodeError>(e),
        },
{
    let (_, pos) = match take_u64(d, 0) {
        Ok(v) => v,
        Err(e) => {
            return Err(e);
        },
    };
    let (version, pos) = match take_u8(d, pos) {
        Ok(v) => v,
        Err(e) => {
            return Err(e);
        },
    };
    let (to_close, pos) = match take_bool(d, pos) {
        Ok(v) => v,
        Err(e) => {
            return Err(e);
        },
    };
    let (rate, pos) = match take_u64(d, pos) {
        Ok(v) => v,
        Err(e) => {
            return Err(e);
        },
    };
    let (duration_min, pos) = match take_u64(d, pos) {
        Ok(v) => v,
        Err(e) => {
            return Err(e);
        },
    };
    let (duration_max, pos) = match take_u64(d, pos) {
        Ok(v) => v,
        Err(e) => {
            return Err(e);
        },
    };
    let (payment_freq, pos) = match take_u8(d, pos) {
        Ok(v) => v,
        Err(e) => {
            return Err(e);
        },
    };
    let (fleet, pos) = match take_key(d, pos) {
        Ok(v) => v,
        Err(e) => {
            return Err(e);
        },
    };
    let (game_id, pos) = match take_key(d, pos) {
        Ok(v) => v,
        Err(e) => {
            return Err(e);
        },
    };
    let (current_rental_state, pos) = match take_key(d, pos) {
        Ok(v) => v,
        Err(e) => {
            return Err(e);
        },
    };
    let (owner, pos) = match take_key(d, pos) {
        Ok(v) => v,
        Err(e) => {
            return Err(e);
        },
    };
    let (owner_token_account, pos) = match take_key(d, pos) {
        Ok(v) => v,
        Err(e) => {
            return Err(e);
        },
    };
    let (owner_profile, pos) = match take_key(d, pos) {
        Ok(v) => v,
        Err(e) => {
            return Err(e);
        },
    };
    let (bump, _) = match take_u8(d, pos) {
        Ok(v) => v,
        Err(e) => {
            return Err(e);
        },
    };
    Ok(
        ContractState {
            version,
            to_close,
            rate,
            duration_min,
            duration_max,
            payment_freq,
            fleet,
            game_id,
            current_rental_state,
            owner,
            owner_token_account,
            owner_profile,
            bump,
        },
    )
}

/// The loop invariant of the child-array reader: what has been read so
/// far, together with a correct parse of the remaining entries, is a
/// correct parse of the whole declared list.
pub open spec fn ship_list_continues(
    d: Seq<u8>,
    pos0: int,
    count: nat,
    done: Seq<FleetShipsInfo>,
    pos: int,
) -> bool
    recommends
        done.len() <= count,
{
    match parse_ship_list(d, pos, (count - done.len()) as nat) {
        Ok((tail, end)) => parse_ship_list(d, pos0, count) == Ok::<
            (Seq<FleetShipsInfo>, int),
            DecodeError,
        >((done + tail, end)),
        Err(e) => parse_ship_list(d, pos0, count) == Err::<(Seq<FleetShipsInfo>, int), DecodeError>(
            e,
        ),
    }
}

/// Decodes a fleet-ships account: header, then exactly the declared
/// number of children, then verifies the buffer is fully consumed —
/// leftover bytes are `TrailingBytes`, a missing child `TruncatedInput`.
#[verifier::loop_isolation(false)]
pub fn decode_fleet_ships(d: &[u8]) -> (r: Result<FleetShips, DecodeError>)
    ensures
        match r {
            Ok(f) => (match parse_fleet_ships(d@, 0) {
                Ok((v, end)) => v == f@ && end == d@.len(),
                Err(_) => false,
            }) && f@.wf(),
            Err(e) => match parse_fleet_ships(d@, 0) {
                Ok((_, end)) => e == DecodeError::TrailingBytes && end != d@.len(),
                Err(pe) => e == pe,
            },
        },
{
    let (_, p1) = match take_u64(d, 0) {
        Ok(v) => v,
        Err(e) => {
            return Err(e);
        },
    };
    let (version, p2) = match take_u8(d, p1) {
        Ok(v) => v,
        Err(e) => {
            return Err(e);
        },
    };
    let (fleet, p3) = match take_key(d, p2) {
        Ok(v) => v,
        Err(e) => {
            return Err(e);
        },
    };
    let (count, p4) = match take_u32(d, p3) {
        Ok(v) => v,
        Err(e) => {
            return Err(e);
        },
    };
    let ghost pos0 = p4 as int;
    let mut ships: Vec<FleetShipsInfo> = Vec::new();
    let mut pos = p4;
    let mut i: u32 = 0;
    proof {
        assert(ships@ + Seq::<FleetShipsInfo>::empty() =~= ships@);
        match parse_ship_list(d@, pos0, count as nat) {
            Ok((tail, end)) => {
                assert(ships@ + tail =~= tail);
            },
            Err(_) => {},
        }
    }
    while i < count
        invariant
            i <= count,
            ships@.len() == i,
            ship_list_continues(d@, pos0, count as nat, ships@, pos as int),
        decreases count - i,
    {
        let ghost done_before = ships@;
        let (entry, next) = match take_fleet_ships_info(d, pos) {
            Ok(v) => v,
            Err(e) => {
                return Err(e);
            },
        };
        ships.push(entry);
        proof {
            match parse_ship_list(d@, next as int, (count - i - 1) as nat) {
                Ok((t2, e2)) => {
                    assert(done_before + (seq![entry] + t2) =~= ships@ + t2);
                },
                Err(_) => {},
            }
        }
        pos = next;
        i = i + 1;
    }
    if pos != d.len() {
        return Err(DecodeError::TrailingBytes);
    }
    proof {
        assert(ships@ + Seq::<FleetShipsInfo>::empty() =~= ships@);
    }
    Ok(FleetShips { version, fleet, fleet_ships_info_count: count, ships })
}

pub fn take_fleet_ships_info(d: &[u8], pos: usize) -> (r: Result<
    (FleetShipsInfo, usize),
    DecodeError,
>)
    ensures
        lift(r) == parse_fleet_ships_info(d@, pos as int),
{
    let (ship, pos) = match take_key(d, pos) {
        Ok(v) => v,
        Err(e) => {
            return Err(e);
        },
    };
    let (amount, pos) = match take_u32(d, pos) {
        Ok(v) => v,
        Err(e) => {
            return Err(e);
        },
    };
    Ok((FleetShipsInfo { ship, amount }, pos))
}

// ---------------------------------------------------------------------------
// Writers for the fixed-size blocks
// ---------------------------------------------------------------------------

pub fn put_starbase_loading_bay(out: &mut Vec<u8>, v: &UiStarbaseLoadingBay)
    ensures
        final(out)@ == old(out)@ + enc_starbase_loading_bay(*v),
{
    put_key(out, v.starbase);
    put_i64(out, v.last_update);
    proof {
        assert(final(out)@ =~= old(out)@ + enc_starbase_loading_bay(*v));
    }
}

pub fn put_idle(out: &mut Vec<u8>, v: &UiIdle)
    ensures
        final(out)@ == old(out)@ + enc_idle(*v),
{
    put_i64(out, v.sector_x);
    put_i64(out, v.sector_y);
    proof {
        assert(final(out)@ =~= old(out)@ + enc_idle(*v));
    }
}

pub fn put_mine_asteroid(out: &mut Vec<u8>, v: &UiMineAsteroid)
    ensures
        final(out)@ == old(out)@ + enc_mine_asteroid(*v),
{
    put_key(out, v.asteroid);
    put_key(out, v.resource);
    put_i64(out, v.start);
    put_i64(out, v.end);
    put_u64(out, v.amount_mined);
    put_i64(out, v.last_update);
    proof {
        assert(final(out)@ =~= old(out)@ + enc_mine_asteroid(*v));
    }
}

pub fn put_move_warp(out: &mut Vec<u8>, v: &UiMoveWarp)
    ensures
        final(out)@ == old(out)@ + enc_move_warp(*v),
{
    put_i64(out, v.from_sector_x);
    put_i64(out, v.from_sector_y);
    put_i64(out, v.to_sector_x);
    put_i64(out, v.to_sector_y);
    put_i64(out, v.warp_start);
    put_i64(out, v.warp_finish);
    proof {
        assert(final(out)@ =~= old(out)@ + enc_move_warp(*v));
    }
}

pub fn put_move_subwarp(out: &mut Vec<u8>, v: &UiMoveSubwarp)
    ensures
        final(out)@ == old(out)@ + enc_move_subwarp(*v),
{
    put_i64(out, v.from_sector_x);
    put_i64(out, v.from_sector_y);
    put_i64(out, v.to_sector_x);
    put_i64(out, v.to_sector_y);
    put_i64(out, v.current_sector_x);
    put_i64(out, v.current_sector_y);
    put_i64(out, v.departure_time);
    put_i64(out, v.arrival_time);
    put_u64(out, v.fuel_expenditure);
    put_i64(out, v.last_update);
    proof {
        assert(final(out)@ =~= old(out)@ + enc_move_subwarp(*v));
    }
}

pub fn put_respawn(out: &mut Vec<u8>, v: &UiRespawn)
    ensures
        final(out)@ == old(out)@ + enc_respawn(*v),
{
    put_i64(out, v.sector_x);
    put_i64(out, v.sector_y);
    put_i64(out, v.start);
    proof {
        assert(final(out)@ =~= old(out)@ + enc_respawn(*v));
    }
}

pub fn put_fleet_state(out: &mut Vec<u8>, s: &UiFleetState)
    ensures
        final(out)@ == old(out)@ + enc_fleet_state(*s),
{
    match s {
        UiFleetState::StarbaseLoadingBay(x) => {
            put_u8(out, 0);
            put_starbase_loading_bay(out, x);
        },
        UiFleetState::Idle(x) => {
            put_u8(out, 1);
            put_idle(out, x);
        },
        UiFleetState::MineAsteroid(x) => {
            put_u8(out, 2);
            put_mine_asteroid(out, x);
        },
        UiFleetState::MoveWarp(x) => {
            put_u8(out, 3);
            put_move_warp(out, x);
        },
        UiFleetState::MoveSubwarp(x) => {
            put_u8(out, 4);
            put_move_subwarp(out, x);
        },
        UiFleetState::Respawn(x) => {
            put_u8(out, 5);
            put_respawn(out, x);
        },
    }
    proof {
        assert(final(out)@ =~= old(out)@ + enc_fleet_state(*s));
    }
}

pub fn put_ship_counts(out: &mut Vec<u8>, v: &UiShipCounts)
    ensures
        final(out)@ == old(out)@ + enc_ship_counts(*v),
{
    put_u32(out, v.total);
    put_u32(out, v.updated);
    put_u16(out, v.xx_small);
    put_u16(out, v.x_small);
    put_u16(out, v.small);
    put_u16(out, v.medium);
    put_u16(out, v.large);
    put_u16(out, v.capital);
    put_u16(out, v.commander);
    put_u16(out, v.titan);
    proof {
        assert(final(out)@ =~= old(out)@ + enc_ship_counts(*v));
    }
}

pub fn put_movement_stats(out: &mut Vec<u8>, v: &UiMovementStats)
    ensures
        final(out)@ == old(out)@ + enc_movement_stats(*v),
{
    put_u32(out, v.subwarp_speed);
    put_u32(out, v.warp_speed);
    put_u16(out, v.max_warp_distance);
    put_u16(out, v.warp_cool_down);
    put_u32(out, v.subwarp_fuel_consumption_rate);
    put_u32(out, v.warp_fuel_consumption_rate);
    put_u32(out, v.planet_exit_fuel_amount);
    proof {
        assert(final(out)@ =~= old(out)@ + enc_movement_stats(*v));
    }
}

pub fn put_cargo_stats(out: &mut Vec<u8>, v: &UiCargoStats)
    ensures
        final(out)@ == old(out)@ + enc_cargo_stats(*v),
{
    put_u32(out, v.cargo_capacity);
    put_u32(out, v.fuel_capacity);
    put_u32(out, v.ammo_capacity);
    put_u32(out, v.ammo_consumption_rate);
    put_u32(out, v.food_consumption_rate);
    put_u32(out, v.mining_rate);
    put_u32(out, v.upgrade_rate);
    put_u32(out, v.cargo_transfer_rate);
    put_u32(out, v.tractor_beam_gather_rate);
    proof {
        assert(final(out)@ =~= old(out)@ + enc_cargo_stats(*v));
    }
}

pub fn put_misc_stats(out: &mut Vec<u8>, v: &UiMiscStats)
    ensures
        final(out)@ == old(out)@ + enc_misc_stats(*v),
{
    put_u16(out, v.required_crew);
    put_u16(out, v.passenger_capacity);
    put_u16(out, v.crew_count);
    put_u16(out, v.rented_crew);
    put_u16(out, v.respawn_time);
    put_u16(out, v.scan_cool_down);
    put_u32(out, v.sdu_per_scan);
    put_u32(out, v.scan_cost);
    put_u32(out, v.placeholder);
    put_u32(out, v.placeholder2);
    put_u32(out, v.placeholder3);
    proof {
        assert(final(out)@ =~= old(out)@ + enc_misc_stats(*v));
    }
}

pub fn put_ship_stats(out: &mut Vec<u8>, v: &UiShipStats)
    ensures
        final(out)@ == old(out)@ + enc_ship_stats(*v),
{
    put_movement_stats(out, &v.movement_stats);
    put_cargo_stats(out, &v.cargo_stats);
    put_misc_stats(out, &v.misc_stats);
    proof {
        assert(final(out)@ =~= old(out)@ + enc_ship_stats(*v));
    }
}

// ---------------------------------------------------------------------------
// Record encoders
// ---------------------------------------------------------------------------

/// Encodes a fleet record exactly as the ledger lays it out,
/// discriminator first.
#[verifier::rlimit(100)]
pub fn encode_fleet(f: &UiFleet) -> (r: Vec<u8>)
    requires
        f@.wf(),
    ensures
        r@ == enc_fleet(f@),
{
    let mut out: Vec<u8> = Vec::new();
    put_u64(&mut out, FLEET_DISCRIMINATOR);
    put_u8(&mut out, f.version);
    put_key(&mut out, f.game_id);
    put_key(&mut out, f.owner_profile);
    put_key(&mut out, f.fleet_ships);
    put_key(&mut out, f.sub_profile);
    put_key(&mut out, f.sub_profile_invalidator);
    put_u8(&mut out, f.faction);
    put_label(&mut out, &f.fleet_label);
    put_ship_counts(&mut out, &f.ship_counts);
    put_i64(&mut out, f.warp_cooldown_expires_at);
    put_i64(&mut out, f.scan_cooldown_expires_at);
    put_ship_stats(&mut out, &f.stats);
    put_key(&mut out, f.cargo_hold);
    put_key(&mut out, f.fuel_tank);
    put_key(&mut out, f.ammo_bank);
    put_u64(&mut out, f.update_id);
    put_fleet_state(&mut out, &f.state);
    proof {
        assert(out@ =~= enc_fleet(f@));
    }
    out
}

pub fn encode_star(s: &Star) -> (r: Vec<u8>)
    requires
        s@.wf(),
    ensures
        r@ == enc_star(s@),
{
    let mut out: Vec<u8> = Vec::new();
    put_u64(&mut out, STAR_DISCRIMINATOR);
    put_u8(&mut out, s.version);
    put_key(&mut out, s.game_id);
    put_label(&mut out, &s.name);
    put_i64(&mut out, s.sector_x);
    put_i64(&mut out, s.sector_y);
    proof {
        assert(out@ =~= enc_star(s@));
    }
    out
}

pub fn encode_ship(s: &Ship) -> (r: Vec<u8>)
    requires
        s@.wf(),
    ensures
        r@ == enc_ship(s@),
{
    let mut out: Vec<u8> = Vec::new();
    put_u64(&mut out, SHIP_DISCRIMINATOR);
    put_u8(&mut out, s.version);
    put_key(&mut out, s.game_id);
    put_key(&mut out, s.mint);
    put_label(&mut out, &s.name);
    put_u8(&mut out, s.size_class);
    proof {
        assert(out@ =~= enc_ship(s@));
    }
    out
}

pub fn encode_contract_state(c: &ContractState) -> (r: Vec<u8>)
    ensures
        r@ == enc_contract_state(*c),
{
    let mut out: Vec<u8> = Vec::new();
    put_u64(&mut out, CONTRACT_STATE_DISCRIMINATOR);
    put_u8(&mut out, c.version);
    put_bool(&mut out, c.to_close);
    put_u64(&mut out, c.rate);
    put_u64(&mut out, c.duration_min);
    put_u64(&mut out, c.duration_max);
    put_u8(&mut out, c.payment_freq);
    put_key(&mut out, c.fleet);
    put_key(&mut out, c.game_id);
    put_key(&mut out, c.current_rental_state);
    put_key(&mut out, c.owner);
    put_key(&mut out, c.owner_token_account);
    put_key(&mut out, c.owner_profile);
    put_u8(&mut out, c.bump);
    proof {
        assert(out@ =~= enc_contract_state(*c));
    }
    out
}

pub fn put_ship_list(out: &mut Vec<u8>, ships: &Vec<FleetShipsInfo>)
    ensures
        final(out)@ == old(out)@ + enc_ship_list(ships@),
{
    let mut i: usize = 0;
    while i < ships.len()
        invariant
            i <= ships@.len(),
            out@ == old(out)@ + enc_ship_list(ships@.subrange(0, i as int)),
        decreases ships@.len() - i,
    {
        let ghost prefix = ships@.subrange(0, i as int);
        put_key(out, ships[i].ship);
        put_u32(out, ships[i].amount);
        i = i + 1;
        proof {
            lemma_enc_ship_list_append(prefix, seq![ships@[i - 1]]);
            assert(seq![ships@[i - 1]].drop_first() =~= Seq::<FleetShipsInfo>::empty());
            assert(enc_ship_list(Seq::<FleetShipsInfo>::empty()) =~= Seq::<u8>::empty());
            assert(enc_ship_list(seq![ships@[i - 1]]) =~= enc_fleet_ships_info(ships@[i - 1]));
            assert(prefix + seq![ships@[i - 1]] =~= ships@.subrange(0, i as int));
            assert(out@ =~= old(out)@ + enc_ship_list(ships@.subrange(0, i as int)));
        }
    }
    proof {
        assert(ships@.subrange(0, ships@.len() as int) =~= ships@);
    }
}

/// Encodes a fleet-ships account with an arbitrary declared count, which
/// need not match the entries given; the faithful encoding passes
/// `ships.len()`.
pub fn encode_fleet_ships_declared(
    version: u8,
    fleet: AccountKey,
    declared: u32,
    ships: &Vec<FleetShipsInfo>,
) -> (r: Vec<u8>)
    ensures
        r@ == enc_fleet_ships_declared(version, fleet, declared, ships@),
{
    let mut out: Vec<u8> = Vec::new();
    put_u64(&mut out, FLEET_SHIPS_DISCRIMINATOR);
    put_u8(&mut out, version);
    put_key(&mut out, fleet);
    put_u32(&mut out, declared);
    put_ship_list(&mut out, ships);
    proof {
        assert(out@ =~= enc_fleet_ships_declared(version, fleet, declared, ships@));
    }
    out
}

pub fn encode_fleet_ships(f: &FleetShips) -> (r: Vec<u8>)
    requires
        f@.wf(),
    ensures
        r@ == enc_fleet_ships(f@),
{
    encode_fleet_ships_declared(f.version, f.fleet, f.fleet_ships_info_count, &f.ships)
}

// ---------------------------------------------------------------------------
// Dispatch: decoding one account of a known record type
// ---------------------------------------------------------------------------

pub open spec fn wf_record(v: TypedRecordV) -> bool {
    match v {
        TypedRecordV::Fleet(f) => f.wf(),
        TypedRecordV::FleetShips(f) => f.wf(),
        TypedRecordV::Star(s) => s.wf(),
        TypedRecordV::Ship(s) => s.wf(),
        TypedRecordV::Contract(_) => true,
    }
}

/// What decoding an account of type `kind` from data `d` yields. Only
/// the child-array record demands that the buffer be fully consumed.
pub open spec fn spec_decode_record(kind: RecordKind, d: Seq<u8>) -> Result<
    TypedRecordV,
    DecodeError,
> {
    match kind {
        RecordKind::Fleet => match parse_fleet(d, 0) {
            Ok((v, _)) => Ok(TypedRecordV::Fleet(v)),
            Err(e) => Err(e),
        },
        RecordKind::FleetShips => match parse_fleet_ships(d, 0) {
            Ok((v, end)) => if end == d.len() {
                Ok(TypedRecordV::FleetShips(v))
            } else {
                Err(DecodeError::TrailingBytes)
            },
            Err(e) => Err(e),
        },
        RecordKind::Star => match parse_star(d, 0) {
            Ok((v, _)) => Ok(TypedRecordV::Star(v)),
            Err(e) => Err(e),
        },
        RecordKind::Ship => match parse_ship(d, 0) {
            Ok((v, _)) => Ok(TypedRecordV::Ship(v)),
            Err(e) => Err(e),
        },
        RecordKind::Contract => match parse_contract_state(d, 0) {
            Ok((v, _)) => Ok(TypedRecordV::Contract(v)),
            Err(e) => Err(e),
        },
    }
}

/// Decodes one account's bytes as the record type its discriminator
/// selected. Pure over the input bytes; a failure names the reason and
/// is local to this account.
pub fn decode_record(kind: RecordKind, d: &[u8]) -> (r: Result<TypedRecord, DecodeError>)
    ensures
        match r {
            Ok(rec) => spec_decode_record(kind, d@) == Ok::<TypedRecordV, DecodeError>(rec@)
                && wf_record(rec@),
            Err(e) => spec_decode_record(kind, d@) == Err::<TypedRecordV, DecodeError>(e),
        },
{
    match kind {
        RecordKind::Fleet => match decode_fleet(d) {
            Ok(f) => Ok(TypedRecord::Fleet(f)),
            Err(e) => Err(e),
        },
        RecordKind::FleetShips => match decode_fleet_ships(d) {
            Ok(f) => Ok(TypedRecord::FleetShips(f)),
            Err(e) => Err(e),
        },
        RecordKind::Star => match decode_star(d) {
            Ok(s) => Ok(TypedRecord::Star(s)),
            Err(e) => Err(e),
        },
        RecordKind::Ship => match decode_ship(d) {
            Ok(s) => Ok(TypedRecord::Ship(s)),
            Err(e) => Err(e),
        },
        RecordKind::Contract => match decode_contract_state(d) {
            Ok(c) => Ok(TypedRecord::Contract(c)),
            Err(e) => Err(e),
        },
    }
}

// ---------------------------------------------------------------------------
// Round-trip laws: decoding an encoding yields the encoded record
// ---------------------------------------------------------------------------

/// Decoding an encoded fleet record yields it back exactly, for every
/// well-formed record, boundary values included.
pub proof fn lemma_fleet_round_trip(v: UiFleetV)
    requires
        v.wf(),
    ensures
        spec_decode_record(RecordKind::Fleet, enc_fleet(v)) == Ok::<TypedRecordV, DecodeError>(
            TypedRecordV::Fleet(v),
        ),
{
    let d = enc_fleet(v);
    assert(d.subrange(0, d.len() as int) =~= enc_fleet(v) + Seq::<u8>::empty());
    lemma_peel_fleet(d, 0, v, Seq::empty());
}

/// Decoding an encoded star record yields it back exactly.
pub proof fn lemma_star_round_trip(v: StarV)
    requires
        v.wf(),
    ensures
        spec_decode_record(RecordKind::Star, enc_star(v)) == Ok::<TypedRecordV, DecodeError>(
            TypedRecordV::Star(v),
        ),
{
    let d = enc_star(v);
    assert(d.subrange(0, d.len() as int) =~= enc_star(v) + Seq::<u8>::empty());
    lemma_peel_star(d, 0, v, Seq::empty());
}

/// Decoding an encoded ship record yields it back exactly.
pub proof fn lemma_ship_round_trip(v: ShipV)
    requires
        v.wf(),
    ensures
        spec_decode_record(RecordKind::Ship, enc_ship(v)) == Ok::<TypedRecordV, DecodeError>(
            TypedRecordV::Ship(v),
        ),
{
    let d = enc_ship(v);
    assert(d.subrange(0, d.len() as int) =~= enc_ship(v) + Seq::<u8>::empty());
    lemma_peel_ship(d, 0, v, Seq::empty());
}

/// Decoding an encoded rental-contract record yields it back exactly.
pub proof fn lemma_contract_state_round_trip(v: ContractState)
    ensures
        spec_decode_record(RecordKind::Contract, enc_contract_state(v)) == Ok::<
            TypedRecordV,
            DecodeError,
        >(TypedRecordV::Contract(v)),
{
    let d = enc_contract_state(v);
    assert(d.subrange(0, d.len() as int) =~= enc_contract_state(v) + Seq::<u8>::empty());
    lemma_peel_contract_state(d, 0, v, Seq::empty());
}

/// Decoding an encoded fleet-ships record yields it back exactly,
/// including a zero-count child array.
pub proof fn lemma_fleet_ships_round_trip(v: FleetShipsV)
    requires
        v.wf(),
    ensures
        spec_decode_record(RecordKind::FleetShips, enc_fleet_ships(v)) == Ok::<
            TypedRecordV,
            DecodeError,
        >(TypedRecordV::FleetShips(v)),
{
    let d = enc_fleet_ships(v);
    assert(d.subrange(0, d.len() as int) =~= enc_fleet_ships(v) + Seq::<u8>::empty());
    lemma_peel_fleet_ships(d, 0, v, Seq::empty());
}

// ---------------------------------------------------------------------------
// Count-mismatch law: a declared child count that disagrees with the
// entries actually present is always detected
// ---------------------------------------------------------------------------

pub proof fn lemma_enc_ship_list_append(a: Seq<FleetShipsInfo>, b: Seq<FleetShipsInfo>)
    ensures
        enc_ship_list(a + b) == enc_ship_list(a) + enc_ship_list(b),
    decreases a.len(),
{
    if a.len() == 0 {
        assert(a + b =~= b);
        assert(enc_ship_list(a) + enc_ship_list(b) =~= enc_ship_list(b));
    } else {
        assert((a + b).drop_first() =~= a.drop_first() + b);
        lemma_enc_ship_list_append(a.drop_first(), b);
        assert(enc_fleet_ships_info(a.first()) + (enc_ship_list(a.drop_first()) + enc_ship_list(b))
            =~= (enc_fleet_ships_info(a.first()) + enc_ship_list(a.drop_first())) + enc_ship_list(
            b,
        ));
    }
}

/// When the remaining buffer holds exactly `s`'s encodings and more
/// entries than that are demanded, reading runs off the end.
proof fn lemma_parse_ship_list_short(d: Seq<u8>, pos: int, s: Seq<FleetShipsInfo>, m: nat)
    requires
        0 <= pos <= d.len(),
        d.subrange(pos, d.len() as int) == enc_ship_list(s),
        m > s.len(),
    ensures
        parse_ship_list(d, pos, m) == Err::<(Seq<FleetShipsInfo>, int), DecodeError>(
            DecodeError::TruncatedInput,
        ),
    decreases s.len(),
{
    lemma_enc_ship_list_len(s);
    if s.len() == 0 {
        assert(pos == d.len());
    } else {
        let r0 = enc_ship_list(s.drop_first());
        assert(d.subrange(pos, d.len() as int) =~= enc_fleet_ships_info(s.first()) + r0);
        lemma_peel_fleet_ships_info(d, pos, s.first(), r0);
        lemma_parse_ship_list_short(d, pos + 36, s.drop_first(), (m - 1) as nat);
    }
}

/// A declared count below the number of child entries actually present
/// leaves bytes over (`TrailingBytes`); a declared count above it runs
/// out of input (`TruncatedInput`).
pub proof fn lemma_fleet_ships_count_mismatch(
    version: u8,
    fleet: AccountKey,
    declared: u32,
    ships: Seq<FleetShipsInfo>,
)
    ensures
        declared < ships.len() ==> spec_decode_record(
            RecordKind::FleetShips,
            enc_fleet_ships_declared(version, fleet, declared, ships),
        ) == Err::<TypedRecordV, DecodeError>(DecodeError::TrailingBytes),
        declared > ships.len() ==> spec_decode_record(
            RecordKind::FleetShips,
            enc_fleet_ships_declared(version, fleet, declared, ships),
        ) == Err::<TypedRecordV, DecodeError>(DecodeError::TruncatedInput),
{
    let d = enc_fleet_ships_declared(version, fleet, declared, ships);
    lemma_enc_ship_list_len(ships);
    let r3 = enc_ship_list(ships) + Seq::<u8>::empty();
    let r2 = enc_u32(declared) + r3;
    let r1 = enc_key(fleet) + r2;
    let r0 = enc_u8(version) + r1;
    assert(d.subrange(0, d.len() as int) =~= enc_u64(FLEET_SHIPS_DISCRIMINATOR) + r0);
    lemma_peel_u64(d, 0, FLEET_SHIPS_DISCRIMINATOR, r0);
    lemma_peel_u8(d, 8, version, r1);
    lemma_peel_key(d, 9, fleet, r2);
    lemma_peel_u32(d, 41, declared, r3);
    assert(d.subrange(45, d.len() as int) =~= enc_ship_list(ships));
    if declared < ships.len() {
        let head = ships.subrange(0, declared as int);
        let tail = ships.subrange(declared as int, ships.len() as int);
        assert(head + tail =~= ships);
        lemma_enc_ship_list_append(head, tail);
        lemma_enc_ship_list_len(head);
        lemma_enc_ship_list_len(tail);
        assert(d.subrange(45, d.len() as int) =~= enc_ship_list(head) + enc_ship_list(tail));
        lemma_peel_ship_list(d, 45, head, enc_ship_list(tail));
        assert(45 + 36 * head.len() < d.len());
    } else if declared > ships.len() {
        lemma_parse_ship_list_short(d, 45, ships, declared as nat);
    }
}

} // verus!
