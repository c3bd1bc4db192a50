//! Specification-level binary layout of every record: an encoder and a
//! total parser per shape, with peel lemmas proving that parsing an
//! encoding embedded in a larger buffer yields the encoded value exactly.
//! The executable decoders in `decode` are verified against these parsers.

use crate::records::{
    wf_label, ContractState, FleetShipsInfo, FleetShipsV, ShipV, StarV, UiCargoStats, UiFleetState,
    UiFleetV, UiIdle, UiMineAsteroid, UiMiscStats, UiMoveSubwarp, UiMoveWarp, UiMovementStats,
    UiRespawn, UiShipCounts, UiShipStats, UiStarbaseLoadingBay, LABEL_WIDTH,
};
use crate::registry::{
    CONTRACT_STATE_DISCRIMINATOR, FLEET_DISCRIMINATOR, FLEET_SHIPS_DISCRIMINATOR,
    SHIP_DISCRIMINATOR, STAR_DISCRIMINATOR,
};
use crate::wire::{
    enc_bool, enc_i64, enc_key, enc_u16, enc_u32, enc_u64, enc_u8, group_enc_lens,
    lemma_peel_bool, lemma_peel_i64, lemma_peel_key, lemma_peel_u16, lemma_peel_u32,
    lemma_peel_u64, lemma_peel_u8, lemma_split_suffix, parse_bool, parse_i64, parse_key,
    parse_u16, parse_u32, parse_u64, parse_u8, AccountKey, DecodeError,
};
use vstd::prelude::*;

verus! {

broadcast use group_enc_lens;

// ---------------------------------------------------------------------------
// Fleet-state variant payloads
// ---------------------------------------------------------------------------

pub open spec fn enc_starbase_loading_bay(v: UiStarbaseLoadingBay) -> Seq<u8> {
    enc_key(v.starbase) + enc_i64(v.last_update)
}

pub open spec fn parse_starbase_loading_bay(d: Seq<u8>, pos: int) -> Result<
    (UiStarbaseLoadingBay, int),
    DecodeError,
> {
    match parse_key(d, pos) {
        Err(e) => Err(e),
        Ok((starbase, pos)) => match parse_i64(d, pos) {
            Err(e) => Err(e),
            Ok((last_update, pos)) => Ok((UiStarbaseLoadingBay { starbase, last_update }, pos)),
        },
    }
}

pub proof fn lemma_peel_starbase_loading_bay(
    d: Seq<u8>,
    pos: int,
    v: UiStarbaseLoadingBay,
    rest: Seq<u8>,
)
    requires
        0 <= pos <= d.len(),
        d.subrange(pos, d.len() as int) == enc_starbase_loading_bay(v) + rest,
    ensures
        parse_starbase_loading_bay(d, pos) == Ok::<(UiStarbaseLoadingBay, int), DecodeError>(
            (v, pos + 40),
        ),
        pos + 40 <= d.len(),
        d.subrange(pos + 40, d.len() as int) == rest,
{
    let r0 = enc_i64(v.last_update) + rest;
    assert(enc_starbase_loading_bay(v) + rest =~= enc_key(v.starbase) + r0);
    lemma_peel_key(d, pos, v.starbase, r0);
    lemma_peel_i64(d, pos + 32, v.last_update, rest);
}

pub open spec fn enc_idle(v: UiIdle) -> Seq<u8> {
    enc_i64(v.sector_x) + enc_i64(v.sector_y)
}

pub open spec fn parse_idle(d: Seq<u8>, pos: int) -> Result<(UiIdle, int), DecodeError> {
    match parse_i64(d, pos) {
        Err(e) => Err(e),
        Ok((sector_x, pos)) => match parse_i64(d, pos) {
            Err(e) => Err(e),
            Ok((sector_y, pos)) => Ok((UiIdle { sector_x, sector_y }, pos)),
        },
    }
}

pub proof fn lemma_peel_idle(d: Seq<u8>, pos: int, v: UiIdle, rest: Seq<u8>)
    requires
        0 <= pos <= d.len(),
        d.subrange(pos, d.len() as int) == enc_idle(v) + rest,
    ensures
        parse_idle(d, pos) == Ok::<(UiIdle, int), DecodeError>((v, pos + 16)),
        pos + 16 <= d.len(),
        d.subrange(pos + 16, d.len() as int) == rest,
{
    let r0 = enc_i64(v.sector_y) + rest;
    assert(enc_idle(v) + rest =~= enc_i64(v.sector_x) + r0);
    lemma_peel_i64(d, pos, v.sector_x, r0);
    lemma_peel_i64(d, pos + 8, v.sector_y, rest);
}

pub open spec fn enc_mine_asteroid(v: UiMineAsteroid) -> Seq<u8> {
    enc_key(v.asteroid) + enc_key(v.resource) + enc_i64(v.start) + enc_i64(v.end) + enc_u64(
        v.amount_mined,
    ) + enc_i64(v.last_update)
}

pub open spec fn parse_mine_asteroid(d: Seq<u8>, pos: int) -> Result<
    (UiMineAsteroid, int),
    DecodeError,
> {
    match parse_key(d, pos) {
        Err(e) => Err(e),
        Ok((asteroid, pos)) => match parse_key(d, pos) {
            Err(e) => Err(e),
            Ok((resource, pos)) => match parse_i64(d, pos) {
                Err(e) => Err(e),
                Ok((start, pos)) => match parse_i64(d, pos) {
                    Err(e) => Err(e),
                    Ok((end, pos)) => match parse_u64(d, pos) {
                        Err(e) => Err(e),
                        Ok((amount_mined, pos)) => match parse_i64(d, pos) {
                            Err(e) => Err(e),
                            Ok((last_update, pos)) => Ok(
                                (
                                    UiMineAsteroid {
                                        asteroid,
                                        resource,
                                        start,
                                        end,
                                        amount_mined,
                                        last_update,
                                    },
                                    pos,
                                ),
                            ),
                        },
                    },
                },
            },
        },
    }
}

pub proof fn lemma_peel_mine_asteroid(d: Seq<u8>, pos: int, v: UiMineAsteroid, rest: Seq<u8>)
    requires
        0 <= pos <= d.len(),
        d.subrange(pos, d.len() as int) == enc_mine_asteroid(v) + rest,
    ensures
        parse_mine_asteroid(d, pos) == Ok::<(UiMineAsteroid, int), DecodeError>((v, pos + 96)),
        pos + 96 <= d.len(),
        d.subrange(pos + 96, d.len() as int) == rest,
{
    let r4 = enc_i64(v.last_update) + rest;
    let r3 = enc_u64(v.amount_mined) + r4;
    let r2 = enc_i64(v.end) + r3;
    let r1 = enc_i64(v.start) + r2;
    let r0 = enc_key(v.resource) + r1;
    assert(enc_mine_asteroid(v) + rest =~= enc_key(v.asteroid) + r0);
    lemma_peel_key(d, pos, v.asteroid, r0);
    lemma_peel_key(d, pos + 32, v.resource, r1);
    lemma_peel_i64(d, pos + 64, v.start, r2);
    lemma_peel_i64(d, pos + 72, v.end, r3);
    lemma_peel_u64(d, pos + 80, v.amount_mined, r4);
    lemma_peel_i64(d, pos + 88, v.last_update, rest);
}

pub open spec fn enc_move_warp(v: UiMoveWarp) -> Seq<u8> {
    enc_i64(v.from_sector_x) + enc_i64(v.from_sector_y) + enc_i64(v.to_sector_x) + enc_i64(
        v.to_sector_y,
    ) + enc_i64(v.warp_start) + enc_i64(v.warp_finish)
}

pub open spec fn parse_move_warp(d: Seq<u8>, pos: int) -> Result<(UiMoveWarp, int), DecodeError> {
    match parse_i64(d, pos) {
        Err(e) => Err(e),
        Ok((from_sector_x, pos)) => match parse_i64(d, pos) {
            Err(e) => Err(e),
            Ok((from_sector_y, pos)) => match parse_i64(d, pos) {
                Err(e) => Err(e),
                Ok((to_sector_x, pos)) => match parse_i64(d, pos) {
                    Err(e) => Err(e),
                    Ok((to_sector_y, pos)) => match parse_i64(d, pos) {
                        Err(e) => Err(e),
                        Ok((warp_start, pos)) => match parse_i64(d, pos) {
                            Err(e) => Err(e),
                            Ok((warp_finish, pos)) => Ok(
                                (
                                    UiMoveWarp {
                                        from_sector_x,
                                        from_sector_y,
                                        to_sector_x,
                                        to_sector_y,
                                        warp_start,
                                        warp_finish,
                                    },
                                    pos,
                                ),
                            ),
                        },
                    },
                },
            },
        },
    }
}

pub proof fn lemma_peel_move_warp(d: Seq<u8>, pos: int, v: UiMoveWarp, rest: Seq<u8>)
    requires
        0 <= pos <= d.len(),
        d.subrange(pos, d.len() as int) == enc_move_warp(v) + rest,
    ensures
        parse_move_warp(d, pos) == Ok::<(UiMoveWarp, int), DecodeError>((v, pos + 48)),
        pos + 48 <= d.len(),
        d.subrange(pos + 48, d.len() as int) == rest,
{
    let r4 = enc_i64(v.warp_finish) + rest;
    let r3 = enc_i64(v.warp_start) + r4;
    let r2 = enc_i64(v.to_sector_y) + r3;
    let r1 = enc_i64(v.to_sector_x) + r2;
    let r0 = enc_i64(v.from_sector_y) + r1;
    assert(enc_move_warp(v) + rest =~= enc_i64(v.from_sector_x) + r0);
    lemma_peel_i64(d, pos, v.from_sector_x, r0);
    lemma_peel_i64(d, pos + 8, v.from_sector_y, r1);
    lemma_peel_i64(d, pos + 16, v.to_sector_x, r2);
    lemma_peel_i64(d, pos + 24, v.to_sector_y, r3);
    lemma_peel_i64(d, pos + 32, v.warp_start, r4);
    lemma_peel_i64(d, pos + 40, v.warp_finish, rest);
}

pub open spec fn enc_move_subwarp(v: UiMoveSubwarp) -> Seq<u8> {
    enc_i64(v.from_sector_x) + enc_i64(v.from_sector_y) + enc_i64(v.to_sector_x) + enc_i64(
        v.to_sector_y,
    ) + enc_i64(v.current_sector_x) + enc_i64(v.current_sector_y) + enc_i64(v.departure_time)
        + enc_i64(v.arrival_time) + enc_u64(v.fuel_expenditure) + enc_i64(v.last_update)
}

pub open spec fn parse_move_subwarp(d: Seq<u8>, pos: int) -> Result<
    (UiMoveSubwarp, int),
    DecodeError,
> {
    match parse_i64(d, pos) {
        Err(e) => Err(e),
        Ok((from_sector_x, pos)) => match parse_i64(d, pos) {
            Err(e) => Err(e),
            Ok((from_sector_y, pos)) => match parse_i64(d, pos) {
                Err(e) => Err(e),
                Ok((to_sector_x, pos)) => match parse_i64(d, pos) {
                    Err(e) => Err(e),
                    Ok((to_sector_y, pos)) => match parse_i64(d, pos) {
                        Err(e) => Err(e),
                        Ok((current_sector_x, pos)) => match parse_i64(d, pos) {
                            Err(e) => Err(e),
                            Ok((current_sector_y, pos)) => match parse_i64(d, pos) {
                                Err(e) => Err(e),
                                Ok((departure_time, pos)) => match parse_i64(d, pos) {
                                    Err(e) => Err(e),
                                    Ok((arrival_time, pos)) => match parse_u64(d, pos) {
                                        Err(e) => Err(e),
                                        Ok((fuel_expenditure, pos)) => match parse_i64(d, pos) {
                                            Err(e) => Err(e),
                                            Ok((last_update, pos)) => Ok(
                                                (
                                                    UiMoveSubwarp {
                                                        from_sector_x,
                                                        from_sector_y,
                                                        to_sector_x,
                                                        to_sector_y,
                                                        current_sector_x,
                                                        current_sector_y,
                                                        departure_time,
                                                        arrival_time,
                                                        fuel_expenditure,
                                                        last_update,
                                                    },
                                                    pos,
                                                ),
                                            ),
                                        },
                                    },
                                },
                            },
                        },
                    },
                },
            },
        },
    }
}

pub proof fn lemma_peel_move_subwarp(d: Seq<u8>, pos: int, v: UiMoveSubwarp, rest: Seq<u8>)
    requires
        0 <= pos <= d.len(),
        d.subrange(pos, d.len() as int) == enc_move_subwarp(v) + rest,
    ensures
        parse_move_subwarp(d, pos) == Ok::<(UiMoveSubwarp, int), DecodeError>((v, pos + 80)),
        pos + 80 <= d.len(),
        d.subrange(pos + 80, d.len() as int) == rest,
{
    let r8 = enc_i64(v.last_update) + rest;
    let r7 = enc_u64(v.fuel_expenditure) + r8;
    let r6 = enc_i64(v.arrival_time) + r7;
    let r5 = enc_i64(v.departure_time) + r6;
    let r4 = enc_i64(v.current_sector_y) + r5;
    let r3 = enc_i64(v.current_sector_x) + r4;
    let r2 = enc_i64(v.to_sector_y) + r3;
    let r1 = enc_i64(v.to_sector_x) + r2;
    let r0 = enc_i64(v.from_sector_y) + r1;
    assert(enc_move_subwarp(v) + rest =~= enc_i64(v.from_sector_x) + r0);
    lemma_peel_i64(d, pos, v.from_sector_x, r0);
    lemma_peel_i64(d, pos + 8, v.from_sector_y, r1);
    lemma_peel_i64(d, pos + 16, v.to_sector_x, r2);
    lemma_peel_i64(d, pos + 24, v.to_sector_y, r3);
    lemma_peel_i64(d, pos + 32, v.current_sector_x, r4);
    lemma_peel_i64(d, pos + 40, v.current_sector_y, r5);
    lemma_peel_i64(d, pos + 48, v.departure_time, r6);
    lemma_peel_i64(d, pos + 56, v.arrival_time, r7);
    lemma_peel_u64(d, pos + 64, v.fuel_expenditure, r8);
    lemma_peel_i64(d, pos + 72, v.last_update, rest);
}

pub open spec fn enc_respawn(v: UiRespawn) -> Seq<u8> {
    enc_i64(v.sector_x) + enc_i64(v.sector_y) + enc_i64(v.start)
}

pub open spec fn parse_respawn(d: Seq<u8>, pos: int) -> Result<(UiRespawn, int), DecodeError> {
    match parse_i64(d, pos) {
        Err(e) => Err(e),
        Ok((sector_x, pos)) => match parse_i64(d, pos) {
            Err(e) => Err(e),
            Ok((sector_y, pos)) => match parse_i64(d, pos) {
                Err(e) => Err(e),
                Ok((start, pos)) => Ok((UiRespawn { sector_x, sector_y, start }, pos)),
            },
        },
    }
}

pub proof fn lemma_peel_respawn(d: Seq<u8>, pos: int, v: UiRespawn, rest: Seq<u8>)
    requires
        0 <= pos <= d.len(),
        d.subrange(pos, d.len() as int) == enc_respawn(v) + rest,
    ensures
        parse_respawn(d, pos) == Ok::<(UiRespawn, int), DecodeError>((v, pos + 24)),
        pos + 24 <= d.len(),
        d.subrange(pos + 24, d.len() as int) == rest,
{
    let r1 = enc_i64(v.start) + rest;
    let r0 = enc_i64(v.sector_y) + r1;
    assert(enc_respawn(v) + rest =~= enc_i64(v.sector_x) + r0);
    lemma_peel_i64(d, pos, v.sector_x, r0);
    lemma_peel_i64(d, pos + 8, v.sector_y, r1);
    lemma_peel_i64(d, pos + 16, v.start, rest);
}

// ---------------------------------------------------------------------------
// The tagged union itself
// ---------------------------------------------------------------------------

pub open spec fn enc_fleet_state(s: UiFleetState) -> Seq<u8> {
    match s {
        UiFleetState::StarbaseLoadingBay(x) => enc_u8(0) + enc_starbase_loading_bay(x),
        UiFleetState::Idle(x) => enc_u8(1) + enc_idle(x),
        UiFleetState::MineAsteroid(x) => enc_u8(2) + enc_mine_asteroid(x),
        UiFleetState::MoveWarp(x) => enc_u8(3) + enc_move_warp(x),
        UiFleetState::MoveSubwarp(x) => enc_u8(4) + enc_move_subwarp(x),
        UiFleetState::Respawn(x) => enc_u8(5) + enc_respawn(x),
    }
}

pub open spec fn parse_fleet_state(d: Seq<u8>, pos: int) -> Result<
    (UiFleetState, int),
    DecodeError,
> {
    match parse_u8(d, pos) {
        Err(e) => Err(e),
        Ok((tag, pos)) => if tag == 0 {
            match parse_starbase_loading_bay(d, pos) {
                Err(e) => Err(e),
                Ok((x, pos)) => Ok((UiFleetState::StarbaseLoadingBay(x), pos)),
            }
        } else if tag == 1 {
            match parse_idle(d, pos) {
                Err(e) => Err(e),
                Ok((x, pos)) => Ok((UiFleetState::Idle(x), pos)),
            }
        } else if tag == 2 {
            match parse_mine_asteroid(d, pos) {
                Err(e) => Err(e),
                Ok((x, pos)) => Ok((UiFleetState::MineAsteroid(x), pos)),
            }
        } else if tag == 3 {
            match parse_move_warp(d, pos) {
                Err(e) => Err(e),
                Ok((x, pos)) => Ok((UiFleetState::MoveWarp(x), pos)),
            }
        } else if tag == 4 {
            match parse_move_subwarp(d, pos) {
                Err(e) => Err(e),
                Ok((x, pos)) => Ok((UiFleetState::MoveSubwarp(x), pos)),
            }
        } else if tag == 5 {
            match parse_respawn(d, pos) {
                Err(e) => Err(e),
                Ok((x, pos)) => Ok((UiFleetState::Respawn(x), pos)),
            }
        } else {
            Err(DecodeError::UnknownVariant(tag))
        },
    }
}

pub proof fn lemma_peel_fleet_state(d: Seq<u8>, pos: int, s: UiFleetState, rest: Seq<u8>)
    requires
        0 <= pos <= d.len(),
        d.subrange(pos, d.len() as int) == enc_fleet_state(s) + rest,
    ensures
        pos + enc_fleet_state(s).len() <= d.len(),
        parse_fleet_state(d, pos) == Ok::<(UiFleetState, int), DecodeError>(
            (s, pos + enc_fleet_state(s).len()),
        ),
        d.subrange(pos + enc_fleet_state(s).len() as int, d.len() as int) == rest,
{
    match s {
        UiFleetState::StarbaseLoadingBay(x) => {
            let r0 = enc_starbase_loading_bay(x) + rest;
            assert(enc_fleet_state(s) + rest =~= enc_u8(0) + r0);
            lemma_peel_u8(d, pos, 0, r0);
            lemma_peel_starbase_loading_bay(d, pos + 1, x, rest);
        },
        UiFleetState::Idle(x) => {
            let r0 = enc_idle(x) + rest;
            assert(enc_fleet_state(s) + rest =~= enc_u8(1) + r0);
            lemma_peel_u8(d, pos, 1, r0);
            lemma_peel_idle(d, pos + 1, x, rest);
        },
        UiFleetState::MineAsteroid(x) => {
            let r0 = enc_mine_asteroid(x) + rest;
            assert(enc_fleet_state(s) + rest =~= enc_u8(2) + r0);
            lemma_peel_u8(d, pos, 2, r0);
            lemma_peel_mine_asteroid(d, pos + 1, x, rest);
        },
        UiFleetState::MoveWarp(x) => {
            let r0 = enc_move_warp(x) + rest;
            assert(enc_fleet_state(s) + rest =~= enc_u8(3) + r0);
            lemma_peel_u8(d, pos, 3, r0);
            lemma_peel_move_warp(d, pos + 1, x, rest);
        },
        UiFleetState::MoveSubwarp(x) => {
            let r0 = enc_move_subwarp(x) + rest;
            assert(enc_fleet_state(s) + rest =~= enc_u8(4) + r0);
            lemma_peel_u8(d, pos, 4, r0);
            lemma_peel_move_subwarp(d, pos + 1, x, rest);
        },
        UiFleetState::Respawn(x) => {
            let r0 = enc_respawn(x) + rest;
            assert(enc_fleet_state(s) + rest =~= enc_u8(5) + r0);
            lemma_peel_u8(d, pos, 5, r0);
            lemma_peel_respawn(d, pos + 1, x, rest);
        },
    }
}

// ---------------------------------------------------------------------------
// Ship statistics blocks
// ---------------------------------------------------------------------------

pub open spec fn enc_ship_counts(v: UiShipCounts) -> Seq<u8> {
    enc_u32(v.total) + enc_u32(v.updated) + enc_u16(v.xx_small) + enc_u16(v.x_small) + enc_u16(
        v.small,
    ) + enc_u16(v.medium) + enc_u16(v.large) + enc_u16(v.capital) + enc_u16(v.commander) + enc_u16(
        v.titan,
    )
}

pub open spec fn parse_ship_counts(d: Seq<u8>, pos: int) -> Result<(UiShipCounts, int), DecodeError> {
    match parse_u32(d, pos) {
        Err(e) => Err(e),
        Ok((total, pos)) => match parse_u32(d, pos) {
            Err(e) => Err(e),
            Ok((updated, pos)) => match parse_u16(d, pos) {
                Err(e) => Err(e),
                Ok((xx_small, pos)) => match parse_u16(d, pos) {
                    Err(e) => Err(e),
                    Ok((x_small, pos)) => match parse_u16(d, pos) {
                        Err(e) => Err(e),
                        Ok((small, pos)) => match parse_u16(d, pos) {
                            Err(e) => Err(e),
                            Ok((medium, pos)) => match parse_u16(d, pos) {
                                Err(e) => Err(e),
                                Ok((large, pos)) => match parse_u16(d, pos) {
                                    Err(e) => Err(e),
                                    Ok((capital, pos)) => match parse_u16(d, pos) {
                                        Err(e) => Err(e),
                                        Ok((commander, pos)) => match parse_u16(d, pos) {
                                            Err(e) => Err(e),
                                            Ok((titan, pos)) => Ok(
                                                (
                                                    UiShipCounts {
                                                        total,
                                                        updated,
                                                        xx_small,
                                                        x_small,
                                                        small,
                                                        medium,
                                                        large,
                                                        capital,
                                                        commander,
                                                        titan,
                                                    },
                                                    pos,
                                                ),
                                            ),
                                        },
                                    },
                                },
                            },
                        },
                    },
                },
            },
        },
    }
}

pub proof fn lemma_peel_ship_counts(d: Seq<u8>, pos: int, v: UiShipCounts, rest: Seq<u8>)
    requires
        0 <= pos <= d.len(),
        d.subrange(pos, d.len() as int) == enc_ship_counts(v) + rest,
    ensures
        parse_ship_counts(d, pos) == Ok::<(UiShipCounts, int), DecodeError>((v, pos + 24)),
        pos + 24 <= d.len(),
        d.subrange(pos + 24, d.len() as int) == rest,
{
    let r8 = enc_u16(v.titan) + rest;
    let r7 = enc_u16(v.commander) + r8;
    let r6 = enc_u16(v.capital) + r7;
    let r5 = enc_u16(v.large) + r6;
    let r4 = enc_u16(v.medium) + r5;
    let r3 = enc_u16(v.small) + r4;
    let r2 = enc_u16(v.x_small) + r3;
    let r1 = enc_u16(v.xx_small) + r2;
    let r0 = enc_u32(v.updated) + r1;
    assert(enc_ship_counts(v) + rest =~= enc_u32(v.total) + r0);
    lemma_peel_u32(d, pos, v.total, r0);
    lemma_peel_u32(d, pos + 4, v.updated, r1);
    lemma_peel_u16(d, pos + 8, v.xx_small, r2);
    lemma_peel_u16(d, pos + 10, v.x_small, r3);
    lemma_peel_u16(d, pos + 12, v.small, r4);
    lemma_peel_u16(d, pos + 14, v.medium, r5);
    lemma_peel_u16(d, pos + 16, v.large, r6);
    lemma_peel_u16(d, pos + 18, v.capital, r7);
    lemma_peel_u16(d, pos + 20, v.commander, r8);
    lemma_peel_u16(d, pos + 22, v.titan, rest);
}

pub open spec fn enc_movement_stats(v: UiMovementStats) -> Seq<u8> {
    enc_u32(v.subwarp_speed) + enc_u32(v.warp_speed) + enc_u16(v.max_warp_distance) + enc_u16(
        v.warp_cool_down,
    ) + enc_u32(v.subwarp_fuel_consumption_rate) + enc_u32(v.warp_fuel_consumption_rate) + enc_u32(
        v.planet_exit_fuel_amount,
    )
}

pub open spec fn parse_movement_stats(d: Seq<u8>, pos: int) -> Result<
    (UiMovementStats, int),
    DecodeError,
> {
    match parse_u32(d, pos) {
        Err(e) => Err(e),
        Ok((subwarp_speed, pos)) => match parse_u32(d, pos) {
            Err(e) => Err(e),
            Ok((warp_speed, pos)) => match parse_u16(d, pos) {
                Err(e) => Err(e),
                Ok((max_warp_distance, pos)) => match parse_u16(d, pos) {
                    Err(e) => Err(e),
                    Ok((warp_cool_down, pos)) => match parse_u32(d, pos) {
                        Err(e) => Err(e),
                        Ok((subwarp_fuel_consumption_rate, pos)) => match parse_u32(d, pos) {
                            Err(e) => Err(e),
                            Ok((warp_fuel_consumption_rate, pos)) => match parse_u32(d, pos) {
                                Err(e) => Err(e),
                                Ok((planet_exit_fuel_amount, pos)) => Ok(
                                    (
                                        UiMovementStats {
                                            subwarp_speed,
                                            warp_speed,
                                            max_warp_distance,
                                            warp_cool_down,
                                            subwarp_fuel_consumption_rate,
                                            warp_fuel_consumption_rate,
                                            planet_exit_fuel_amount,
                                        },
                                        pos,
                                    ),
                                ),
                            },
                        },
                    },
                },
            },
        },
    }
}

pub proof fn lemma_peel_movement_stats(d: Seq<u8>, pos: int, v: UiMovementStats, rest: Seq<u8>)
    requires
        0 <= pos <= d.len(),
        d.subrange(pos, d.len() as int) == enc_movement_stats(v) + rest,
    ensures
        parse_movement_stats(d, pos) == Ok::<(UiMovementStats, int), DecodeError>((v, pos + 24)),
        pos + 24 <= d.len(),
        d.subrange(pos + 24, d.len() as int) == rest,
{
    let r5 = enc_u32(v.planet_exit_fuel_amount) + rest;
    let r4 = enc_u32(v.warp_fuel_consumption_rate) + r5;
    let r3 = enc_u32(v.subwarp_fuel_consumption_rate) + r4;
    let r2 = enc_u16(v.warp_cool_down) + r3;
    let r1 = enc_u16(v.max_warp_distance) + r2;
    let r0 = enc_u32(v.warp_speed) + r1;
    assert(enc_movement_stats(v) + rest =~= enc_u32(v.subwarp_speed) + r0);
    lemma_peel_u32(d, pos, v.subwarp_speed, r0);
    lemma_peel_u32(d, pos + 4, v.warp_speed, r1);
    lemma_peel_u16(d, pos + 8, v.max_warp_distance, r2);
    lemma_peel_u16(d, pos + 10, v.warp_cool_down, r3);
    lemma_peel_u32(d, pos + 12, v.subwarp_fuel_consumption_rate, r4);
    lemma_peel_u32(d, pos + 16, v.warp_fuel_consumption_rate, r5);
    lemma_peel_u32(d, pos + 20, v.planet_exit_fuel_amount, rest);
}

pub open spec fn enc_cargo_stats(v: UiCargoStats) -> Seq<u8> {
    enc_u32(v.cargo_capacity) + enc_u32(v.fuel_capacity) + enc_u32(v.ammo_capacity) + enc_u32(
        v.ammo_consumption_rate,
    ) + enc_u32(v.food_consumption_rate) + enc_u32(v.mining_rate) + enc_u32(v.upgrade_rate)
        + enc_u32(v.cargo_transfer_rate) + enc_u32(v.tractor_beam_gather_rate)
}

pub open spec fn parse_cargo_stats(d: Seq<u8>, pos: int) -> Result<(UiCargoStats, int), DecodeError> {
    match parse_u32(d, pos) {
        Err(e) => Err(e),
        Ok((cargo_capacity, pos)) => match parse_u32(d, pos) {
            Err(e) => Err(e),
            Ok((fuel_capacity, pos)) => match parse_u32(d, pos) {
                Err(e) => Err(e),
                Ok((ammo_capacity, pos)) => match parse_u32(d, pos) {
                    Err(e) => Err(e),
                    Ok((ammo_consumption_rate, pos)) => match parse_u32(d, pos) {
                        Err(e) => Err(e),
                        Ok((food_consumption_rate, pos)) => match parse_u32(d, pos) {
                            Err(e) => Err(e),
                            Ok((mining_rate, pos)) => match parse_u32(d, pos) {
                                Err(e) => Err(e),
                                Ok((upgrade_rate, pos)) => match parse_u32(d, pos) {
                                    Err(e) => Err(e),
                                    Ok((cargo_transfer_rate, pos)) => match parse_u32(d, pos) {
                                        Err(e) => Err(e),
                                        Ok((tractor_beam_gather_rate, pos)) => Ok(
                                            (
                                                UiCargoStats {
                                                    cargo_capacity,
                                                    fuel_capacity,
                                                    ammo_capacity,
                                                    ammo_consumption_rate,
                                                    food_consumption_rate,
                                                    mining_rate,
                                                    upgrade_rate,
                                                    cargo_transfer_rate,
                                                    tractor_beam_gather_rate,
                                                },
                                                pos,
                                            ),
                                        ),
                                    },
                                },
                            },
                        },
                    },
                },
            },
        },
    }
}

pub proof fn lemma_peel_cargo_stats(d: Seq<u8>, pos: int, v: UiCargoStats, rest: Seq<u8>)
    requires
        0 <= pos <= d.len(),
        d.subrange(pos, d.len() as int) == enc_cargo_stats(v) + rest,
    ensures
        parse_cargo_stats(d, pos) == Ok::<(UiCargoStats, int), DecodeError>((v, pos + 36)),
        pos + 36 <= d.len(),
        d.subrange(pos + 36, d.len() as int) == rest,
{
    let r7 = enc_u32(v.tractor_beam_gather_rate) + rest;
    let r6 = enc_u32(v.cargo_transfer_rate) + r7;
    let r5 = enc_u32(v.upgrade_rate) + r6;
    let r4 = enc_u32(v.mining_rate) + r5;
    let r3 = enc_u32(v.food_consumption_rate) + r4;
    let r2 = enc_u32(v.ammo_consumption_rate) + r3;
    let r1 = enc_u32(v.ammo_capacity) + r2;
    let r0 = enc_u32(v.fuel_capacity) + r1;
    assert(enc_cargo_stats(v) + rest =~= enc_u32(v.cargo_capacity) + r0);
    lemma_peel_u32(d, pos, v.cargo_capacity, r0);
    lemma_peel_u32(d, pos + 4, v.fuel_capacity, r1);
    lemma_peel_u32(d, pos + 8, v.ammo_capacity, r2);
    lemma_peel_u32(d, pos + 12, v.ammo_consumption_rate, r3);
    lemma_peel_u32(d, pos + 16, v.food_consumption_rate, r4);
    lemma_peel_u32(d, pos + 20, v.mining_rate, r5);
    lemma_peel_u32(d, pos + 24, v.upgrade_rate, r6);
    lemma_peel_u32(d, pos + 28, v.cargo_transfer_rate, r7);
    lemma_peel_u32(d, pos + 32, v.tractor_beam_gather_rate, rest);
}

pub open spec fn enc_misc_stats(v: UiMiscStats) -> Seq<u8> {
    enc_u16(v.required_crew) + enc_u16(v.passenger_capacity) + enc_u16(v.crew_count) + enc_u16(
        v.rented_crew,
    ) + enc_u16(v.respawn_time) + enc_u16(v.scan_cool_down) + enc_u32(v.sdu_per_scan) + enc_u32(
        v.scan_cost,
    ) + enc_u32(v.placeholder) + enc_u32(v.placeholder2) + enc_u32(v.placeholder3)
}

pub open spec fn parse_misc_stats(d: Seq<u8>, pos: int) -> Result<(UiMiscStats, int), DecodeError> {
    match parse_u16(d, pos) {
        Err(e) => Err(e),
        Ok((required_crew, pos)) => match parse_u16(d, pos) {
            Err(e) => Err(e),
            Ok((passenger_capacity, pos)) => match parse_u16(d, pos) {
                Err(e) => Err(e),
                Ok((crew_count, pos)) => match parse_u16(d, pos) {
                    Err(e) => Err(e),
                    Ok((rented_crew, pos)) => match parse_u16(d, pos) {
                        Err(e) => Err(e),
                        Ok((respawn_time, pos)) => match parse_u16(d, pos) {
                            Err(e) => Err(e),
                            Ok((scan_cool_down, pos)) => match parse_u32(d, pos) {
                                Err(e) => Err(e),
                                Ok((sdu_per_scan, pos)) => match parse_u32(d, pos) {
                                    Err(e) => Err(e),
                                    Ok((scan_cost, pos)) => match parse_u32(d, pos) {
                                        Err(e) => Err(e),
                                        Ok((placeholder, pos)) => match parse_u32(d, pos) {
                                            Err(e) => Err(e),
                                            Ok((placeholder2, pos)) => match parse_u32(d, pos) {
                                                Err(e) => Err(e),
                                                Ok((placeholder3, pos)) => Ok(
                                                    (
                                                        UiMiscStats {
                                                            required_crew,
                                                            passenger_capacity,
                                                            crew_count,
                                                            rented_crew,
                                                            respawn_time,
                                                            scan_cool_down,
                                                            sdu_per_scan,
                                                            scan_cost,
                                                            placeholder,
                                                            placeholder2,
                                                            placeholder3,
                                                        },
                                                        pos,
                                                    ),
                                                ),
                                            },
                                        },
                                    },
                                },
                            },
                        },
                    },
                },
            },
        },
    }
}

pub proof fn lemma_peel_misc_stats(d: Seq<u8>, pos: int, v: UiMiscStats, rest: Seq<u8>)
    requires
        0 <= pos <= d.len(),
        d.subrange(pos, d.len() as int) == enc_misc_stats(v) + rest,
    ensures
        parse_misc_stats(d, pos) == Ok::<(UiMiscStats, int), DecodeError>((v, pos + 32)),
        pos + 32 <= d.len(),
        d.subrange(pos + 32, d.len() as int) == rest,
{
    let r9 = enc_u32(v.placeholder3) + rest;
    let r8 = enc_u32(v.placeholder2) + r9;
    let r7 = enc_u32(v.placeholder) + r8;
    let r6 = enc_u32(v.scan_cost) + r7;
    let r5 = enc_u32(v.sdu_per_scan) + r6;
    let r4 = enc_u16(v.scan_cool_down) + r5;
    let r3 = enc_u16(v.respawn_time) + r4;
    let r2 = enc_u16(v.rented_crew) + r3;
    let r1 = enc_u16(v.crew_count) + r2;
    let r0 = enc_u16(v.passenger_capacity) + r1;
    assert(enc_misc_stats(v) + rest =~= enc_u16(v.required_crew) + r0);
    lemma_peel_u16(d, pos, v.required_crew, r0);
    lemma_peel_u16(d, pos + 2, v.passenger_capacity, r1);
    lemma_peel_u16(d, pos + 4, v.crew_count, r2);
    lemma_peel_u16(d, pos + 6, v.rented_crew, r3);
    lemma_peel_u16(d, pos + 8, v.respawn_time, r4);
    lemma_peel_u16(d, pos + 10, v.scan_cool_down, r5);
    lemma_peel_u32(d, pos + 12, v.sdu_per_scan, r6);
    lemma_peel_u32(d, pos + 16, v.scan_cost, r7);
    lemma_peel_u32(d, pos + 20, v.placeholder, r8);
    lemma_peel_u32(d, pos + 24, v.placeholder2, r9);
    lemma_peel_u32(d, pos + 28, v.placeholder3, rest);
}

// ---------------------------------------------------------------------------
// Fixed-width text fields
//
// On the wire a label occupies exactly `LABEL_WIDTH` bytes, padded on the
// right with NUL bytes; decoding strips the trailing NULs.
// ---------------------------------------------------------------------------

pub open spec fn zeros(n: nat) -> Seq<u8> {
    Seq::new(n, |i: int| 0u8)
}

/// The label bytes with every trailing NUL removed.
pub open spec fn trim0(s: Seq<u8>) -> Seq<u8>
    decreases s.len(),
{
    if s.len() > 0 && s[s.len() - 1] == 0 {
        trim0(s.drop_last())
    } else {
        s
    }
}

pub open spec fn enc_label(l: Seq<u8>) -> Seq<u8>
    recommends
        l.len() <= LABEL_WIDTH,
{
    l + zeros((LABEL_WIDTH - l.len()) as nat)
}

pub open spec fn parse_label(d: Seq<u8>, pos: int) -> Result<(Seq<u8>, int), DecodeError> {
    if 0 <= pos && pos + LABEL_WIDTH <= d.len() {
        Ok((trim0(d.subrange(pos, pos + LABEL_WIDTH)), pos + LABEL_WIDTH))
    } else {
        Err(DecodeError::TruncatedInput)
    }
}

/// Trimming never lengthens the label and leaves no trailing NUL, so
/// every label decoded from a full-width field is well formed.
pub proof fn lemma_trim0_wf(s: Seq<u8>)
    ensures
        trim0(s).len() <= s.len(),
        trim0(s).len() > 0 ==> trim0(s)[trim0(s).len() - 1] != 0,
    decreases s.len(),
{
    if s.len() > 0 && s[s.len() - 1] == 0 {
        lemma_trim0_wf(s.drop_last());
    }
}

/// Stripping the padding recovers exactly the label that was padded.
pub proof fn lemma_trim0_of_padded(l: Seq<u8>, n: nat)
    requires
        l.len() > 0 ==> l[l.len() - 1] != 0,
    ensures
        trim0(l + zeros(n)) == l,
    decreases n,
{
    if n == 0 {
        assert(l + zeros(0) =~= l);
    } else {
        let s = l + zeros(n);
        assert(s[s.len() - 1] == 0);
        assert(s.drop_last() =~= l + zeros((n - 1) as nat));
        lemma_trim0_of_padded(l, (n - 1) as nat);
    }
}

pub proof fn lemma_peel_label(d: Seq<u8>, pos: int, l: Seq<u8>, rest: Seq<u8>)
    requires
        0 <= pos <= d.len(),
        wf_label(l),
        d.subrange(pos, d.len() as int) == enc_label(l) + rest,
    ensures
        parse_label(d, pos) == Ok::<(Seq<u8>, int), DecodeError>((l, pos + LABEL_WIDTH)),
        pos + LABEL_WIDTH <= d.len(),
        d.subrange(pos + LABEL_WIDTH, d.len() as int) == rest,
{
    lemma_split_suffix(d, pos, enc_label(l), rest);
    lemma_trim0_of_padded(l, (LABEL_WIDTH - l.len()) as nat);
}

pub open spec fn enc_ship_stats(v: UiShipStats) -> Seq<u8> {
    enc_movement_stats(v.movement_stats) + enc_cargo_stats(v.cargo_stats) + enc_misc_stats(
        v.misc_stats,
    )
}

pub open spec fn parse_ship_stats(d: Seq<u8>, pos: int) -> Result<(UiShipStats, int), DecodeError> {
    match parse_movement_stats(d, pos) {
        Err(e) => Err(e),
        Ok((movement_stats, pos)) => match parse_cargo_stats(d, pos) {
            Err(e) => Err(e),
            Ok((cargo_stats, pos)) => match parse_misc_stats(d, pos) {
                Err(e) => Err(e),
                Ok((misc_stats, pos)) => Ok(
                    (UiShipStats { movement_stats, cargo_stats, misc_stats }, pos),
                ),
            },
        },
    }
}

pub proof fn lemma_peel_ship_stats(d: Seq<u8>, pos: int, v: UiShipStats, rest: Seq<u8>)
    requires
        0 <= pos <= d.len(),
        d.subrange(pos, d.len() as int) == enc_ship_stats(v) + rest,
    ensures
        parse_ship_stats(d, pos) == Ok::<(UiShipStats, int), DecodeError>((v, pos + 92)),
        pos + 92 <= d.len(),
        d.subrange(pos + 92, d.len() as int) == rest,
{
    let r1 = enc_misc_stats(v.misc_stats) + rest;
    let r0 = enc_cargo_stats(v.cargo_stats) + r1;
    assert(enc_ship_stats(v) + rest =~= enc_movement_stats(v.movement_stats) + r0);
    lemma_peel_movement_stats(d, pos, v.movement_stats, r0);
    lemma_peel_cargo_stats(d, pos + 24, v.cargo_stats, r1);
    lemma_peel_misc_stats(d, pos + 60, v.misc_stats, rest);
}

// ---------------------------------------------------------------------------
// Fleet accounts
//
// The account data opens with the 8-byte discriminator; the decoder skips
// it (dispatch has already examined it) and reads the fields in layout
// order, ending with the tagged-union state.
// ---------------------------------------------------------------------------

pub open spec fn enc_fleet(v: UiFleetV) -> Seq<u8>
    recommends
        v.wf(),
{
    enc_u64(FLEET_DISCRIMINATOR) + enc_u8(v.version) + enc_key(v.game_id) + enc_key(
        v.owner_profile,
    ) + enc_key(v.fleet_ships) + enc_key(v.sub_profile) + enc_key(v.sub_profile_invalidator)
        + enc_u8(v.faction) + enc_label(v.fleet_label) + enc_ship_counts(v.ship_counts) + enc_i64(
        v.warp_cooldown_expires_at,
    ) + enc_i64(v.scan_cooldown_expires_at) + enc_ship_stats(v.stats) + enc_key(v.cargo_hold)
        + enc_key(v.fuel_tank) + enc_key(v.ammo_bank) + enc_u64(v.update_id) + enc_fleet_state(
        v.state,
    )
}

pub open spec fn parse_fleet(d: Seq<u8>, pos: int) -> Result<(UiFleetV, int), DecodeError> {
    match parse_u64(d, pos) {
        Err(e) => Err(e),
        Ok((_, pos)) => match parse_u8(d, pos) {
            Err(e) => Err(e),
            Ok((version, pos)) => match parse_key(d, pos) {
                Err(e) => Err(e),
                Ok((game_id, pos)) => match parse_key(d, pos) {
                    Err(e) => Err(e),
                    Ok((owner_profile, pos)) => match parse_key(d, pos) {
                        Err(e) => Err(e),
                        Ok((fleet_ships, pos)) => match parse_key(d, pos) {
                            Err(e) => Err(e),
                            Ok((sub_profile, pos)) => match parse_key(d, pos) {
                                Err(e) => Err(e),
                                Ok((sub_profile_invalidator, pos)) => match parse_u8(d, pos) {
                                    Err(e) => Err(e),
                                    Ok((faction, pos)) => match parse_label(d, pos) {
                                        Err(e) => Err(e),
                                        Ok((fleet_label, pos)) => match parse_ship_counts(d, pos) {
                                            Err(e) => Err(e),
                                            Ok((ship_counts, pos)) => match parse_i64(d, pos) {
                                                Err(e) => Err(e),
                                                Ok((warp_cooldown_expires_at, pos)) => match parse_i64(d, pos) {
                                                    Err(e) => Err(e),
                                                    Ok((scan_cooldown_expires_at, pos)) => match parse_ship_stats(d, pos) {
                                                        Err(e) => Err(e),
                                                        Ok((stats, pos)) => match parse_key(d, pos) {
                                                            Err(e) => Err(e),
                                                            Ok((cargo_hold, pos)) => match parse_key(d, pos) {
                                                                Err(e) => Err(e),
                                                                Ok((fuel_tank, pos)) => match parse_key(d, pos) {
                                                                    Err(e) => Err(e),
                                                                    Ok((ammo_bank, pos)) => match parse_u64(d, pos) {
                                                                        Err(e) => Err(e),
                                                                        Ok((update_id, pos)) => match parse_fleet_state(d, pos) {
                                                                            Err(e) => Err(e),
                                                                            Ok((state, pos)) => Ok(
                                                                                (
                                                                                    UiFleetV {
                                                                                        version,
                                                                                        game_id,
                                                                                        owner_profile,
                                                                                        fleet_ships,
                                                                                        sub_profile,
                                                                                        sub_profile_invalidator,
                                                                                        faction,
                                                                                        fleet_label,
                                                                                        ship_counts,
                                                                                        warp_cooldown_expires_at,
                                                                                        scan_cooldown_expires_at,
                                                                                        stats,
                                                                                        cargo_hold,
                                                                                        fuel_tank,
                                                                                        ammo_bank,
                                                                                        update_id,
                                                                                        state,
                                                                                    },
                                                                                    pos,
                                                                                ),
                                                                            ),
                                                                        },
                                                                    },
                                                                },
                                                            },
                                                        },
                                                    },
                                                },
                                            },
                                        },
                                    },
                                },
                            },
                        },
                    },
                },
            },
        },
    }
}

#[verifier::rlimit(100)]
#[verifier::spinoff_prover]
pub proof fn lemma_peel_fleet(d: Seq<u8>, pos: int, v: UiFleetV, rest: Seq<u8>)
    requires
        0 <= pos <= d.len(),
        v.wf(),
        d.subrange(pos, d.len() as int) == enc_fleet(v) + rest,
    ensures
        pos + enc_fleet(v).len() <= d.len(),
        parse_fleet(d, pos) == Ok::<(UiFleetV, int), DecodeError>(
            (v, pos + enc_fleet(v).len()),
        ),
        d.subrange(pos + enc_fleet(v).len() as int, d.len() as int) == rest,
{
    let r16 = enc_fleet_state(v.state) + rest;
    let r15 = enc_u64(v.update_id) + r16;
    let r14 = enc_key(v.ammo_bank) + r15;
    let r13 = enc_key(v.fuel_tank) + r14;
    let r12 = enc_key(v.cargo_hold) + r13;
    let r11 = enc_ship_stats(v.stats) + r12;
    let r10 = enc_i64(v.scan_cooldown_expires_at) + r11;
    let r9 = enc_i64(v.warp_cooldown_expires_at) + r10;
    let r8 = enc_ship_counts(v.ship_counts) + r9;
    let r7 = enc_label(v.fleet_label) + r8;
    let r6 = enc_u8(v.faction) + r7;
    let r5 = enc_key(v.sub_profile_invalidator) + r6;
    let r4 = enc_key(v.sub_profile) + r5;
    let r3 = enc_key(v.fleet_ships) + r4;
    let r2 = enc_key(v.owner_profile) + r3;
    let r1 = enc_key(v.game_id) + r2;
    let r0 = enc_u8(v.version) + r1;
    assert(enc_fleet(v) + rest =~= enc_u64(FLEET_DISCRIMINATOR) + r0);
    lemma_peel_u64(d, pos, FLEET_DISCRIMINATOR, r0);
    lemma_peel_u8(d, pos + 8, v.version, r1);
    lemma_peel_key(d, pos + 9, v.game_id, r2);
    lemma_peel_key(d, pos + 41, v.owner_profile, r3);
    lemma_peel_key(d, pos + 73, v.fleet_ships, r4);
    lemma_peel_key(d, pos + 105, v.sub_profile, r5);
    lemma_peel_key(d, pos + 137, v.sub_profile_invalidator, r6);
    lemma_peel_u8(d, pos + 169, v.faction, r7);
    lemma_peel_label(d, pos + 170, v.fleet_label, r8);
    lemma_peel_ship_counts(d, pos + 234, v.ship_counts, r9);
    lemma_peel_i64(d, pos + 258, v.warp_cooldown_expires_at, r10);
    lemma_peel_i64(d, pos + 266, v.scan_cooldown_expires_at, r11);
    lemma_peel_ship_stats(d, pos + 274, v.stats, r12);
    lemma_peel_key(d, pos + 366, v.cargo_hold, r13);
    lemma_peel_key(d, pos + 398, v.fuel_tank, r14);
    lemma_peel_key(d, pos + 430, v.ammo_bank, r15);
    lemma_peel_u64(d, pos + 462, v.update_id, r16);
    lemma_peel_fleet_state(d, pos + 470, v.state, rest);
}

// ---------------------------------------------------------------------------
// Star accounts
// ---------------------------------------------------------------------------

pub open spec fn enc_star(v: StarV) -> Seq<u8>
    recommends
        v.wf(),
{
    enc_u64(STAR_DISCRIMINATOR) + enc_u8(v.version) + enc_key(v.game_id) + enc_label(v.name)
        + enc_i64(v.sector_x) + enc_i64(v.sector_y)
}

pub open spec fn parse_star(d: Seq<u8>, pos: int) -> Result<(StarV, int), DecodeError> {
    match parse_u64(d, pos) {
        Err(e) => Err(e),
        Ok((_, pos)) => match parse_u8(d, pos) {
            Err(e) => Err(e),
            Ok((version, pos)) => match parse_key(d, pos) {
                Err(e) => Err(e),
                Ok((game_id, pos)) => match parse_label(d, pos) {
                    Err(e) => Err(e),
                    Ok((name, pos)) => match parse_i64(d, pos) {
                        Err(e) => Err(e),
                        Ok((sector_x, pos)) => match parse_i64(d, pos) {
                            Err(e) => Err(e),
                            Ok((sector_y, pos)) => Ok(
                                (StarV { version, game_id, name, sector_x, sector_y }, pos),
                            ),
                        },
                    },
                },
            },
        },
    }
}

pub proof fn lemma_peel_star(d: Seq<u8>, pos: int, v: StarV, rest: Seq<u8>)
    requires
        0 <= pos <= d.len(),
        v.wf(),
        d.subrange(pos, d.len() as int) == enc_star(v) + rest,
    ensures
        parse_star(d, pos) == Ok::<(StarV, int), DecodeError>((v, pos + 121)),
        pos + 121 <= d.len(),
        enc_star(v).len() == 121,
        d.subrange(pos + 121, d.len() as int) == rest,
{
    let r4 = enc_i64(v.sector_y) + rest;
    let r3 = enc_i64(v.sector_x) + r4;
    let r2 = enc_label(v.name) + r3;
    let r1 = enc_key(v.game_id) + r2;
    let r0 = enc_u8(v.version) + r1;
    assert(enc_star(v) + rest =~= enc_u64(STAR_DISCRIMINATOR) + r0);
    lemma_peel_u64(d, pos, STAR_DISCRIMINATOR, r0);
    lemma_peel_u8(d, pos + 8, v.version, r1);
    lemma_peel_key(d, pos + 9, v.game_id, r2);
    lemma_peel_label(d, pos + 41, v.name, r3);
    lemma_peel_i64(d, pos + 105, v.sector_x, r4);
    lemma_peel_i64(d, pos + 113, v.sector_y, rest);
}

// ---------------------------------------------------------------------------
// Ship accounts
// ---------------------------------------------------------------------------

pub open spec fn enc_ship(v: ShipV) -> Seq<u8>
    recommends
        v.wf(),
{
    enc_u64(SHIP_DISCRIMINATOR) + enc_u8(v.version) + enc_key(v.game_id) + enc_key(v.mint)
        + enc_label(v.name) + enc_u8(v.size_class)
}

pub open spec fn parse_ship(d: Seq<u8>, pos: int) -> Result<(ShipV, int), DecodeError> {
    match parse_u64(d, pos) {
        Err(e) => Err(e),
        Ok((_, pos)) => match parse_u8(d, pos) {
            Err(e) => Err(e),
            Ok((version, pos)) => match parse_key(d, pos) {
                Err(e) => Err(e),
                Ok((game_id, pos)) => match parse_key(d, pos) {
                    Err(e) => Err(e),
                    Ok((mint, pos)) => match parse_label(d, pos) {
                        Err(e) => Err(e),
                        Ok((name, pos)) => match parse_u8(d, pos) {
                            Err(e) => Err(e),
                            Ok((size_class, pos)) => Ok(
                                (ShipV { version, game_id, mint, name, size_class }, pos),
                            ),
                        },
                    },
                },
            },
        },
    }
}

pub proof fn lemma_peel_ship(d: Seq<u8>, pos: int, v: ShipV, rest: Seq<u8>)
    requires
        0 <= pos <= d.len(),
        v.wf(),
        d.subrange(pos, d.len() as int) == enc_ship(v) + rest,
    ensures
        parse_ship(d, pos) == Ok::<(ShipV, int), DecodeError>((v, pos + 138)),
        pos + 138 <= d.len(),
        enc_ship(v).len() == 138,
        d.subrange(pos + 138, d.len() as int) == rest,
{
    let r4 = enc_u8(v.size_class) + rest;
    let r3 = enc_label(v.name) + r4;
    let r2 = enc_key(v.mint) + r3;
    let r1 = enc_key(v.game_id) + r2;
    let r0 = enc_u8(v.version) + r1;
    assert(enc_ship(v) + rest =~= enc_u64(SHIP_DISCRIMINATOR) + r0);
    lemma_peel_u64(d, pos, SHIP_DISCRIMINATOR, r0);
    lemma_peel_u8(d, pos + 8, v.version, r1);
    lemma_peel_key(d, pos + 9, v.game_id, r2);
    lemma_peel_key(d, pos + 41, v.mint, r3);
    lemma_peel_label(d, pos + 73, v.name, r4);
    lemma_peel_u8(d, pos + 137, v.size_class, rest);
}

// ---------------------------------------------------------------------------
// Rental-contract accounts
// ---------------------------------------------------------------------------

pub open spec fn enc_contract_state(v: ContractState) -> Seq<u8> {
    enc_u64(CONTRACT_STATE_DISCRIMINATOR) + enc_u8(v.version) + enc_bool(v.to_close) + enc_u64(
        v.rate,
    ) + enc_u64(v.duration_min) + enc_u64(v.duration_max) + enc_u8(v.payment_freq) + enc_key(
        v.fleet,
    ) + enc_key(v.game_id) + enc_key(v.current_rental_state) + enc_key(v.owner) + enc_key(
        v.owner_token_account,
    ) + enc_key(v.owner_profile) + enc_u8(v.bump)
}

pub open spec fn parse_contract_state(d: Seq<u8>, pos: int) -> Result<
    (ContractState, int),
    DecodeError,
> {
    match parse_u64(d, pos) {
        Err(e) => Err(e),
        Ok((_, pos)) => match parse_u8(d, pos) {
            Err(e) => Err(e),
            Ok((version, pos)) => match parse_bool(d, pos) {
                Err(e) => Err(e),
                Ok((to_close, pos)) => match parse_u64(d, pos) {
                    Err(e) => Err(e),
                    Ok((rate, pos)) => match parse_u64(d, pos) {
                        Err(e) => Err(e),
                        Ok((duration_min, pos)) => match parse_u64(d, pos) {
                            Err(e) => Err(e),
                            Ok((duration_max, pos)) => match parse_u8(d, pos) {
                                Err(e) => Err(e),
                                Ok((payment_freq, pos)) => match parse_key(d, pos) {
                                    Err(e) => Err(e),
                                    Ok((fleet, pos)) => match parse_key(d, pos) {
                                        Err(e) => Err(e),
                                        Ok((game_id, pos)) => match parse_key(d, pos) {
                                            Err(e) => Err(e),
                                            Ok((current_rental_state, pos)) => match parse_key(d, pos) {
                                                Err(e) => Err(e),
                                                Ok((owner, pos)) => match parse_key(d, pos) {
                                                    Err(e) => Err(e),
                                                    Ok((owner_token_account, pos)) => match parse_key(d, pos) {
                                                        Err(e) => Err(e),
                                                        Ok((owner_profile, pos)) => match parse_u8(d, pos) {
                                                            Err(e) => Err(e),
                                                            Ok((bump, pos)) => Ok(
                                                                (
                                                                    ContractState {
                                                                        version,
                                                                        to_close,
                                                                        rate,
                                                                        duration_min,
                                                                        duration_max,
                                                                        payment_freq,
                                                                        fleet,
                                                                        game_id,
                                                                        current_rental_state,
                                                                        owner,
                                                                        owner_token_account,
                                                                        owner_profile,
                                                                        bump,
                                                                    },
                                                                    pos,
                                                                ),
                                                            ),
                                                        },
                                                    },
                                                },
                                            },
                                        },
                                    },
                                },
                            },
                        },
                    },
                },
            },
        },
    }
}

pub proof fn lemma_peel_contract_state(d: Seq<u8>, pos: int, v: ContractState, rest: Seq<u8>)
    requires
        0 <= pos <= d.len(),
        d.subrange(pos, d.len() as int) == enc_contract_state(v) + rest,
    ensures
        parse_contract_state(d, pos) == Ok::<(ContractState, int), DecodeError>((v, pos + 228)),
        pos + 228 <= d.len(),
        enc_contract_state(v).len() == 228,
        d.subrange(pos + 228, d.len() as int) == rest,
{
    let r12 = enc_u8(v.bump) + rest;
    let r11 = enc_key(v.owner_profile) + r12;
    let r10 = enc_key(v.owner_token_account) + r11;
    let r9 = enc_key(v.owner) + r10;
    let r8 = enc_key(v.current_rental_state) + r9;
    let r7 = enc_key(v.game_id) + r8;
    let r6 = enc_key(v.fleet) + r7;
    let r5 = enc_u8(v.payment_freq) + r6;
    let r4 = enc_u64(v.duration_max) + r5;
    let r3 = enc_u64(v.duration_min) + r4;
    let r2 = enc_u64(v.rate) + r3;
    let r1 = enc_bool(v.to_close) + r2;
    let r0 = enc_u8(v.version) + r1;
    assert(enc_contract_state(v) + rest =~= enc_u64(CONTRACT_STATE_DISCRIMINATOR) + r0);
    lemma_peel_u64(d, pos, CONTRACT_STATE_DISCRIMINATOR, r0);
    lemma_peel_u8(d, pos + 8, v.version, r1);
    lemma_peel_bool(d, pos + 9, v.to_close, r2);
    lemma_peel_u64(d, pos + 10, v.rate, r3);
    lemma_peel_u64(d, pos + 18, v.duration_min, r4);
    lemma_peel_u64(d, pos + 26, v.duration_max, r5);
    lemma_peel_u8(d, pos + 34, v.payment_freq, r6);
    lemma_peel_key(d, pos + 35, v.fleet, r7);
    lemma_peel_key(d, pos + 67, v.game_id, r8);
    lemma_peel_key(d, pos + 99, v.current_rental_state, r9);
    lemma_peel_key(d, pos + 131, v.owner, r10);
    lemma_peel_key(d, pos + 163, v.owner_token_account, r11);
    lemma_peel_key(d, pos + 195, v.owner_profile, r12);
    lemma_peel_u8(d, pos + 227, v.bump, rest);
}

// ---------------------------------------------------------------------------
// Fleet-ships accounts: the child-array record
//
// The parent declares how many fixed-layout child entries follow it
// contiguously in the same byte stream.
// ---------------------------------------------------------------------------

pub open spec fn enc_fleet_ships_info(v: FleetShipsInfo) -> Seq<u8> {
    enc_key(v.ship) + enc_u32(v.amount)
}

pub open spec fn parse_fleet_ships_info(d: Seq<u8>, pos: int) -> Result<
    (FleetShipsInfo, int),
    DecodeError,
> {
    match parse_key(d, pos) {
        Err(e) => Err(e),
        Ok((ship, pos)) => match parse_u32(d, pos) {
            Err(e) => Err(e),
            Ok((amount, pos)) => Ok((FleetShipsInfo { ship, amount }, pos)),
        },
    }
}

pub proof fn lemma_peel_fleet_ships_info(d: Seq<u8>, pos: int, v: FleetShipsInfo, rest: Seq<u8>)
    requires
        0 <= pos <= d.len(),
        d.subrange(pos, d.len() as int) == enc_fleet_ships_info(v) + rest,
    ensures
        parse_fleet_ships_info(d, pos) == Ok::<(FleetShipsInfo, int), DecodeError>((v, pos + 36)),
        pos + 36 <= d.len(),
        d.subrange(pos + 36, d.len() as int) == rest,
{
    let r0 = enc_u32(v.amount) + rest;
    assert(enc_fleet_ships_info(v) + rest =~= enc_key(v.ship) + r0);
    lemma_peel_key(d, pos, v.ship, r0);
    lemma_peel_u32(d, pos + 32, v.amount, rest);
}

pub open spec fn enc_ship_list(s: Seq<FleetShipsInfo>) -> Seq<u8>
    decreases s.len(),
{
    if s.len() == 0 {
        Seq::empty()
    } else {
        enc_fleet_ships_info(s.first()) + enc_ship_list(s.drop_first())
    }
}

pub proof fn lemma_enc_ship_list_len(s: Seq<FleetShipsInfo>)
    ensures
        enc_ship_list(s).len() == 36 * s.len(),
    decreases s.len(),
{
    if s.len() > 0 {
        lemma_enc_ship_list_len(s.drop_first());
    }
}

/// Exactly `n` child entries, read in sequence.
pub open spec fn parse_ship_list(d: Seq<u8>, pos: int, n: nat) -> Result<
    (Seq<FleetShipsInfo>, int),
    DecodeError,
>
    decreases n,
{
    if n == 0 {
        Ok((Seq::empty(), pos))
    } else {
        match parse_fleet_ships_info(d, pos) {
            Err(e) => Err(e),
            Ok((first, pos)) => match parse_ship_list(d, pos, (n - 1) as nat) {
                Err(e) => Err(e),
                Ok((tail, pos)) => Ok((seq![first] + tail, pos)),
            },
        }
    }
}

pub proof fn lemma_peel_ship_list(d: Seq<u8>, pos: int, s: Seq<FleetShipsInfo>, rest: Seq<u8>)
    requires
        0 <= pos <= d.len(),
        d.subrange(pos, d.len() as int) == enc_ship_list(s) + rest,
    ensures
        pos + 36 * s.len() <= d.len(),
        parse_ship_list(d, pos, s.len()) == Ok::<(Seq<FleetShipsInfo>, int), DecodeError>(
            (s, pos + 36 * s.len()),
        ),
        d.subrange(pos + 36 * s.len(), d.len() as int) == rest,
    decreases s.len(),
{
    lemma_enc_ship_list_len(s);
    if s.len() == 0 {
        assert(enc_ship_list(s) + rest =~= rest);
        assert(parse_ship_list(d, pos, 0) == Ok::<(Seq<FleetShipsInfo>, int), DecodeError>(
            (Seq::empty(), pos),
        ));
        assert(s =~= Seq::<FleetShipsInfo>::empty());
    } else {
        let r0 = enc_ship_list(s.drop_first()) + rest;
        assert(enc_ship_list(s) + rest =~= enc_fleet_ships_info(s.first()) + r0);
        lemma_peel_fleet_ships_info(d, pos, s.first(), r0);
        lemma_peel_ship_list(d, pos + 36, s.drop_first(), rest);
        assert(seq![s.first()] + s.drop_first() =~= s);
    }
}

/// The fleet-ships layout with an arbitrary declared count, which need
/// not agree with the entries that actually follow; the well-formed
/// encoding is the case `declared == ships.len()`.
pub open spec fn enc_fleet_ships_declared(
    version: u8,
    fleet: AccountKey,
    declared: u32,
    ships: Seq<FleetShipsInfo>,
) -> Seq<u8> {
    enc_u64(FLEET_SHIPS_DISCRIMINATOR) + enc_u8(version) + enc_key(fleet) + enc_u32(declared)
        + enc_ship_list(ships)
}

pub open spec fn enc_fleet_ships(v: FleetShipsV) -> Seq<u8>
    recommends
        v.wf(),
{
    enc_fleet_ships_declared(v.version, v.fleet, v.fleet_ships_info_count, v.ships)
}

/// Parses the parent header and exactly as many children as it declares.
/// The caller checks that nothing is left over.
pub open spec fn parse_fleet_ships(d: Seq<u8>, pos: int) -> Result<(FleetShipsV, int), DecodeError> {
    match parse_u64(d, pos) {
        Err(e) => Err(e),
        Ok((_, pos)) => match parse_u8(d, pos) {
            Err(e) => Err(e),
            Ok((version, pos)) => match parse_key(d, pos) {
                Err(e) => Err(e),
                Ok((fleet, pos)) => match parse_u32(d, pos) {
                    Err(e) => Err(e),
                    Ok((count, pos)) => match parse_ship_list(d, pos, count as nat) {
                        Err(e) => Err(e),
                        Ok((ships, pos)) => Ok(
                            (
                                FleetShipsV {
                                    version,
                                    fleet,
                                    fleet_ships_info_count: count,
                                    ships,
                                },
                                pos,
                            ),
                        ),
                    },
                },
            },
        },
    }
}

pub proof fn lemma_peel_fleet_ships(d: Seq<u8>, pos: int, v: FleetShipsV, rest: Seq<u8>)
    requires
        0 <= pos <= d.len(),
        v.wf(),
        d.subrange(pos, d.len() as int) == enc_fleet_ships(v) + rest,
    ensures
        pos + 45 + 36 * v.ships.len() <= d.len(),
        parse_fleet_ships(d, pos) == Ok::<(FleetShipsV, int), DecodeError>(
            (v, pos + 45 + 36 * v.ships.len()),
        ),
        d.subrange(pos + 45 + 36 * v.ships.len(), d.len() as int) == rest,
{
    lemma_enc_ship_list_len(v.ships);
    let r3 = enc_ship_list(v.ships) + rest;
    let r2 = enc_u32(v.fleet_ships_info_count) + r3;
    let r1 = enc_key(v.fleet) + r2;
    let r0 = enc_u8(v.version) + r1;
    assert(enc_fleet_ships(v) + rest =~= enc_u64(FLEET_SHIPS_DISCRIMINATOR) + r0);
    lemma_peel_u64(d, pos, FLEET_SHIPS_DISCRIMINATOR, r0);
    lemma_peel_u8(d, pos + 8, v.version, r1);
    lemma_peel_key(d, pos + 9, v.fleet, r2);
    lemma_peel_u32(d, pos + 41, v.fleet_ships_info_count, r3);
    lemma_peel_ship_list(d, pos + 45, v.ships, rest);
}

} // verus!
