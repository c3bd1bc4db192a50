use sage_relay::decode::{
    decode_contract_state, decode_fleet, decode_fleet_ships, decode_record, decode_ship,
    decode_star, encode_contract_state, encode_fleet, encode_fleet_ships,
    encode_fleet_ships_declared, encode_ship, encode_star,
};
use sage_relay::records::{
    ContractState, FleetShips, FleetShipsInfo, Ship, Star, TypedRecord, UiCargoStats, UiFleet,
    UiFleetState, UiIdle, UiMineAsteroid, UiMiscStats, UiMoveSubwarp, UiMoveWarp, UiMovementStats,
    UiRespawn, UiShipCounts, UiShipStats, UiStarbaseLoadingBay,
};
use sage_relay::registry::{
    discriminator_of, lookup, relation_name, RecordKind, CONTRACT_STATE_DISCRIMINATOR,
    FLEET_DISCRIMINATOR, FLEET_SHIPS_DISCRIMINATOR, SHIP_DISCRIMINATOR, STAR_DISCRIMINATOR,
};
use sage_relay::wire::{AccountKey, DecodeError};

fn key(n: u64) -> AccountKey {
    AccountKey { w0: n, w1: n.wrapping_mul(3), w2: n.wrapping_add(41), w3: !n }
}

fn sample_counts() -> UiShipCounts {
    UiShipCounts {
        total: 9,
        updated: 9,
        xx_small: 1,
        x_small: 2,
        small: 3,
        medium: 1,
        large: 1,
        capital: 0,
        commander: 1,
        titan: 0,
    }
}

fn sample_stats() -> UiShipStats {
    UiShipStats {
        movement_stats: UiMovementStats {
            subwarp_speed: 1200,
            warp_speed: 4500,
            max_warp_distance: 80,
            warp_cool_down: 60,
            subwarp_fuel_consumption_rate: 25,
            warp_fuel_consumption_rate: 100,
            planet_exit_fuel_amount: 10,
        },
        cargo_stats: UiCargoStats {
            cargo_capacity: 5000,
            fuel_capacity: 2000,
            ammo_capacity: 1000,
            ammo_consumption_rate: 5,
            food_consumption_rate: 2,
            mining_rate: 75,
            upgrade_rate: 0,
            cargo_transfer_rate: 100,
            tractor_beam_gather_rate: 0,
        },
        misc_stats: UiMiscStats {
            required_crew: 20,
            passenger_capacity: 4,
            crew_count: 22,
            rented_crew: 2,
            respawn_time: 300,
            scan_cool_down: 30,
            sdu_per_scan: 1,
            scan_cost: 10,
            placeholder: 0,
            placeholder2: 0,
            placeholder3: 0,
        },
    }
}

fn sample_fleet(label: &[u8], state: UiFleetState) -> UiFleet {
    UiFleet {
        version: 1,
        game_id: key(7),
        owner_profile: key(8),
        fleet_ships: key(9),
        sub_profile: key(10),
        sub_profile_invalidator: key(11),
        faction: 2,
        fleet_label: label.to_vec(),
        ship_counts: sample_counts(),
        warp_cooldown_expires_at: -5,
        scan_cooldown_expires_at: i64::MAX,
        stats: sample_stats(),
        cargo_hold: key(12),
        fuel_tank: key(13),
        ammo_bank: key(14),
        update_id: u64::MAX,
        state,
    }
}

#[test]
fn fleet_round_trip_idle() {
    let fleet = sample_fleet(
        b"Intrepid",
        UiFleetState::Idle(UiIdle { sector_x: -3, sector_y: 14 }),
    );
    let bytes = encode_fleet(&fleet);
    assert_eq!(decode_fleet(&bytes), Ok(fleet));
}

#[test]
fn fleet_round_trip_empty_label_and_extreme_values() {
    let mut fleet = sample_fleet(
        b"",
        UiFleetState::MoveWarp(UiMoveWarp {
            from_sector_x: i64::MIN,
            from_sector_y: i64::MAX,
            to_sector_x: 0,
            to_sector_y: -1,
            warp_start: i64::MIN,
            warp_finish: i64::MAX,
        }),
    );
    fleet.update_id = u64::MAX;
    fleet.warp_cooldown_expires_at = i64::MIN;
    let bytes = encode_fleet(&fleet);
    assert_eq!(decode_fleet(&bytes), Ok(fleet));
}

#[test]
fn fleet_round_trip_every_state_shape() {
    let states = vec![
        UiFleetState::StarbaseLoadingBay(UiStarbaseLoadingBay {
            starbase: key(21),
            last_update: 99,
        }),
        UiFleetState::Idle(UiIdle { sector_x: 0, sector_y: 0 }),
        UiFleetState::MineAsteroid(UiMineAsteroid {
            asteroid: key(22),
            resource: key(23),
            start: 1,
            end: 2,
            amount_mined: u64::MAX,
            last_update: -7,
        }),
        UiFleetState::MoveWarp(UiMoveWarp {
            from_sector_x: 1,
            from_sector_y: 2,
            to_sector_x: 3,
            to_sector_y: 4,
            warp_start: 5,
            warp_finish: 6,
        }),
        UiFleetState::MoveSubwarp(UiMoveSubwarp {
            from_sector_x: -1,
            from_sector_y: -2,
            to_sector_x: -3,
            to_sector_y: -4,
            current_sector_x: -5,
            current_sector_y: -6,
            departure_time: 7,
            arrival_time: 8,
            fuel_expenditure: 9,
            last_update: 10,
        }),
        UiFleetState::Respawn(UiRespawn { sector_x: 5, sector_y: -5, start: 0 }),
    ];
    for state in states {
        let fleet = sample_fleet(b"Vagabond", state);
        let bytes = encode_fleet(&fleet);
        assert_eq!(decode_fleet(&bytes), Ok(fleet));
    }
}

#[test]
fn fleet_label_trims_trailing_nul_only() {
    // An interior NUL survives; only trailing padding is stripped.
    let fleet = sample_fleet(
        b"a\0b",
        UiFleetState::Idle(UiIdle { sector_x: 1, sector_y: 1 }),
    );
    let bytes = encode_fleet(&fleet);
    let decoded = decode_fleet(&bytes).unwrap();
    assert_eq!(decoded.fleet_label, b"a\0b".to_vec());
}

#[test]
fn fleet_unknown_state_tag_is_rejected_not_defaulted() {
    let fleet = sample_fleet(b"x", UiFleetState::Idle(UiIdle { sector_x: 1, sector_y: 2 }));
    let mut bytes = encode_fleet(&fleet);
    // The state tag sits right after the 470-byte fixed prefix.
    assert_eq!(bytes[470], 1);
    bytes[470] = 9;
    assert_eq!(decode_fleet(&bytes), Err(DecodeError::UnknownVariant(9)));
}

#[test]
fn fleet_truncated_input() {
    let fleet = sample_fleet(b"x", UiFleetState::Idle(UiIdle { sector_x: 1, sector_y: 2 }));
    let mut bytes = encode_fleet(&fleet);
    bytes.truncate(bytes.len() - 1);
    assert_eq!(decode_fleet(&bytes), Err(DecodeError::TruncatedInput));
    assert_eq!(decode_fleet(&bytes[..5]), Err(DecodeError::TruncatedInput));
}

#[test]
fn star_round_trip() {
    let star = Star {
        version: 0,
        game_id: key(30),
        name: b"Super Sector".to_vec(),
        sector_x: -40,
        sector_y: 40,
    };
    let bytes = encode_star(&star);
    assert_eq!(decode_star(&bytes), Ok(star));
}

#[test]
fn ship_round_trip() {
    let ship = Ship {
        version: 3,
        game_id: key(31),
        mint: key(32),
        name: b"Pearce X4".to_vec(),
        size_class: 2,
    };
    let bytes = encode_ship(&ship);
    assert_eq!(decode_ship(&bytes), Ok(ship));
}

#[test]
fn contract_state_round_trip() {
    for to_close in [false, true] {
        let contract = ContractState {
            version: 1,
            to_close,
            rate: 1_000_000,
            duration_min: 86_400,
            duration_max: 604_800,
            payment_freq: 0,
            fleet: key(40),
            game_id: key(41),
            current_rental_state: key(42),
            owner: key(43),
            owner_token_account: key(44),
            owner_profile: key(45),
            bump: 254,
        };
        let bytes = encode_contract_state(&contract);
        assert_eq!(decode_contract_state(&bytes), Ok(contract));
    }
}

#[test]
fn contract_state_invalid_flag_byte() {
    let contract = ContractState {
        version: 1,
        to_close: false,
        rate: 5,
        duration_min: 1,
        duration_max: 2,
        payment_freq: 0,
        fleet: key(40),
        game_id: key(41),
        current_rental_state: key(42),
        owner: key(43),
        owner_token_account: key(44),
        owner_profile: key(45),
        bump: 0,
    };
    let mut bytes = encode_contract_state(&contract);
    // The to_close flag sits right after discriminator and version.
    bytes[9] = 7;
    assert_eq!(
        decode_contract_state(&bytes),
        Err(DecodeError::UnknownVariant(7))
    );
}

fn sample_entries(n: u64) -> Vec<FleetShipsInfo> {
    (0..n)
        .map(|i| FleetShipsInfo { ship: key(100 + i), amount: (i as u32) + 1 })
        .collect()
}

#[test]
fn fleet_ships_round_trip() {
    for n in [0u64, 1, 5] {
        let record = FleetShips {
            version: 1,
            fleet: key(50),
            fleet_ships_info_count: n as u32,
            ships: sample_entries(n),
        };
        let bytes = encode_fleet_ships(&record);
        assert_eq!(decode_fleet_ships(&bytes), Ok(record));
    }
}

#[test]
fn fleet_ships_understated_count_is_trailing_bytes() {
    let bytes = encode_fleet_ships_declared(1, key(50), 1, &sample_entries(2));
    assert_eq!(decode_fleet_ships(&bytes), Err(DecodeError::TrailingBytes));
}

#[test]
fn fleet_ships_overstated_count_is_truncated_input() {
    // Declares three children but only two full entries follow.
    let bytes = encode_fleet_ships_declared(1, key(50), 3, &sample_entries(2));
    assert_eq!(decode_fleet_ships(&bytes), Err(DecodeError::TruncatedInput));
}

#[test]
fn star_decodes_from_hand_built_bytes() {
    // Built by hand, independently of the library's encoder, to pin the
    // wire layout: discriminator, version, game key, 64-byte NUL-padded
    // name, then two signed little-endian sector coordinates.
    let mut bytes = Vec::new();
    bytes.extend_from_slice(&[214, 131, 207, 208, 202, 148, 162, 48]);
    bytes.push(1); // version
    bytes.extend_from_slice(&5u64.to_le_bytes());
    bytes.extend_from_slice(&6u64.to_le_bytes());
    bytes.extend_from_slice(&7u64.to_le_bytes());
    bytes.extend_from_slice(&8u64.to_le_bytes());
    let mut name = [0u8; 64];
    name[..4].copy_from_slice(b"Vega");
    bytes.extend_from_slice(&name);
    bytes.extend_from_slice(&(-12i64).to_le_bytes());
    bytes.extend_from_slice(&34i64.to_le_bytes());

    assert_eq!(discriminator_of(&bytes), Some(STAR_DISCRIMINATOR));
    let star = decode_star(&bytes).unwrap();
    assert_eq!(star.version, 1);
    assert_eq!(star.game_id, AccountKey { w0: 5, w1: 6, w2: 7, w3: 8 });
    assert_eq!(star.name, b"Vega".to_vec());
    assert_eq!(star.sector_x, -12);
    assert_eq!(star.sector_y, 34);
    // And the library's own encoder produces exactly these bytes.
    assert_eq!(encode_star(&star), bytes);
}

#[test]
fn registry_lookup_matches_discriminators() {
    assert_eq!(lookup(FLEET_DISCRIMINATOR), Some(RecordKind::Fleet));
    assert_eq!(lookup(FLEET_SHIPS_DISCRIMINATOR), Some(RecordKind::FleetShips));
    assert_eq!(lookup(STAR_DISCRIMINATOR), Some(RecordKind::Star));
    assert_eq!(lookup(SHIP_DISCRIMINATOR), Some(RecordKind::Ship));
    assert_eq!(lookup(CONTRACT_STATE_DISCRIMINATOR), Some(RecordKind::Contract));
    assert_eq!(lookup(0), None);
    assert_eq!(lookup(u64::MAX), None);
}

#[test]
fn registry_relation_names() {
    assert_eq!(relation_name(RecordKind::Fleet), "fleet");
    assert_eq!(relation_name(RecordKind::FleetShips), "fleet_ships");
    assert_eq!(relation_name(RecordKind::Star), "star");
    assert_eq!(relation_name(RecordKind::Ship), "ship");
    assert_eq!(relation_name(RecordKind::Contract), "rental_contract_state");
}

#[test]
fn discriminator_of_reads_the_first_eight_bytes() {
    let star = Star {
        version: 0,
        game_id: key(1),
        name: b"s".to_vec(),
        sector_x: 0,
        sector_y: 0,
    };
    let bytes = encode_star(&star);
    assert_eq!(discriminator_of(&bytes), Some(STAR_DISCRIMINATOR));
    assert_eq!(discriminator_of(&bytes[..7]), None);
    assert_eq!(discriminator_of(&[]), None);
}

#[test]
fn decode_record_dispatches_by_kind() {
    let star = Star {
        version: 0,
        game_id: key(1),
        name: b"polaris".to_vec(),
        sector_x: 2,
        sector_y: 3,
    };
    let bytes = encode_star(&star);
    assert_eq!(
        decode_record(RecordKind::Star, &bytes),
        Ok(TypedRecord::Star(star))
    );
    // The same bytes read as a fleet run out of input.
    assert_eq!(
        decode_record(RecordKind::Fleet, &bytes),
        Err(DecodeError::TruncatedInput)
    );
}
