use sage_relay::decode::{encode_fleet, encode_fleet_ships_declared, encode_star};
use sage_relay::ingest::{
    run_ingest, AccountUpdate, ApplyOutcome, IngestStatus, StreamEvent,
};
use sage_relay::records::{Star, UiFleet, UiFleetState, UiIdle, UiMoveWarp};
use sage_relay::store::{FleetState, Projection, SageFleet, SageFleetPos};
use sage_relay::wire::AccountKey;

fn key(n: u64) -> AccountKey {
    AccountKey { w0: n, w1: 2 * n, w2: n + 17, w3: !n }
}

fn fleet_record(label: &[u8], faction: u8, state: UiFleetState) -> UiFleet {
    UiFleet {
        version: 1,
        game_id: key(7),
        owner_profile: key(8),
        fleet_ships: key(9),
        sub_profile: key(10),
        sub_profile_invalidator: key(11),
        faction,
        fleet_label: label.to_vec(),
        ship_counts: sage_relay::records::UiShipCounts {
            total: 1,
            updated: 1,
            xx_small: 1,
            x_small: 0,
            small: 0,
            medium: 0,
            large: 0,
            capital: 0,
            commander: 0,
            titan: 0,
        },
        warp_cooldown_expires_at: 0,
        scan_cooldown_expires_at: 0,
        stats: sage_relay::records::UiShipStats {
            movement_stats: sage_relay::records::UiMovementStats {
                subwarp_speed: 1,
                warp_speed: 2,
                max_warp_distance: 3,
                warp_cool_down: 4,
                subwarp_fuel_consumption_rate: 5,
                warp_fuel_consumption_rate: 6,
                planet_exit_fuel_amount: 7,
            },
            cargo_stats: sage_relay::records::UiCargoStats {
                cargo_capacity: 1,
                fuel_capacity: 2,
                ammo_capacity: 3,
                ammo_consumption_rate: 4,
                food_consumption_rate: 5,
                mining_rate: 6,
                upgrade_rate: 7,
                cargo_transfer_rate: 8,
                tractor_beam_gather_rate: 9,
            },
            misc_stats: sage_relay::records::UiMiscStats {
                required_crew: 1,
                passenger_capacity: 2,
                crew_count: 3,
                rented_crew: 4,
                respawn_time: 5,
                scan_cool_down: 6,
                sdu_per_scan: 7,
                scan_cost: 8,
                placeholder: 0,
                placeholder2: 0,
                placeholder3: 0,
            },
        },
        cargo_hold: key(12),
        fuel_tank: key(13),
        ammo_bank: key(14),
        update_id: 1,
        state,
    }
}

fn update(identifier: AccountKey, data: Vec<u8>, slot: u64) -> AccountUpdate {
    AccountUpdate { identifier, owner: key(900), data, balance: 1_000_000, slot }
}

#[test]
fn applying_a_fleet_update_writes_the_full_row() {
    let mut p = Projection::new();
    let k = key(1);
    let fleet = fleet_record(b"Orca", 2, UiFleetState::Idle(UiIdle { sector_x: 3, sector_y: -4 }));
    let ev = update(k, encode_fleet(&fleet), 10);
    assert_eq!(p.apply_update(&ev), ApplyOutcome::Applied);
    assert_eq!(
        p.fleet.get(k),
        Some(&SageFleet { pubkey: k, fleet_label: b"Orca".to_vec(), faction: 2 })
    );
    assert_eq!(p.fleet_pos.get(k), Some(&SageFleetPos { pubkey: k, x: 3, y: -4 }));
}

#[test]
fn applying_the_same_update_twice_equals_applying_it_once() {
    let k = key(1);
    let fleet = fleet_record(b"Orca", 2, UiFleetState::Idle(UiIdle { sector_x: 3, sector_y: -4 }));
    let ev = update(k, encode_fleet(&fleet), 10);

    let mut once = Projection::new();
    assert_eq!(once.apply_update(&ev), ApplyOutcome::Applied);
    let mut twice = Projection::new();
    assert_eq!(twice.apply_update(&ev), ApplyOutcome::Applied);
    assert_eq!(twice.apply_update(&ev), ApplyOutcome::Applied);

    assert_eq!(once.fleet.get(k), twice.fleet.get(k));
    assert_eq!(once.fleet_state.get(k), twice.fleet_state.get(k));
    assert_eq!(once.fleet_pos.get(k), twice.fleet_pos.get(k));
    assert_eq!(once.fleet_warping.get(k), twice.fleet_warping.get(k));
    assert_eq!(once.fleet.len(), twice.fleet.len());
    assert_eq!(once.fleet_pos.len(), twice.fleet_pos.len());
}

#[test]
fn second_update_replaces_the_row_no_merge() {
    let mut p = Projection::new();
    let k = key(1);
    let a = fleet_record(b"First", 1, UiFleetState::Idle(UiIdle { sector_x: 1, sector_y: 1 }));
    let b = fleet_record(b"Second", 3, UiFleetState::Idle(UiIdle { sector_x: 9, sector_y: 9 }));
    assert_eq!(p.apply_update(&update(k, encode_fleet(&a), 10)), ApplyOutcome::Applied);
    assert_eq!(p.apply_update(&update(k, encode_fleet(&b), 11)), ApplyOutcome::Applied);
    assert_eq!(
        p.fleet.get(k),
        Some(&SageFleet { pubkey: k, fleet_label: b"Second".to_vec(), faction: 3 })
    );
    assert_eq!(p.fleet.len(), 1);
    assert_eq!(p.fleet_pos.get(k), Some(&SageFleetPos { pubkey: k, x: 9, y: 9 }));
}

#[test]
fn unknown_discriminator_is_skipped_and_stream_goes_on() {
    let mut p = Projection::new();
    let k = key(1);
    let mut foreign = vec![0u8; 64];
    foreign[0] = 0xAB;
    let ev_unknown = update(k, foreign, 10);
    assert_eq!(p.apply_update(&ev_unknown), ApplyOutcome::Skipped);
    assert_eq!(p.fleet.len(), 0);
    assert_eq!(p.star.len(), 0);

    // Too short to carry a discriminator at all: also a skip.
    assert_eq!(p.apply_update(&update(k, vec![1, 2, 3], 11)), ApplyOutcome::Skipped);

    // A later, known update still lands.
    let star = Star {
        version: 0,
        game_id: key(5),
        name: b"polaris".to_vec(),
        sector_x: 1,
        sector_y: 2,
    };
    assert_eq!(
        p.apply_update(&update(key(2), encode_star(&star), 12)),
        ApplyOutcome::Applied
    );
    assert_eq!(p.star.len(), 1);
}

#[test]
fn malformed_account_fails_locally_and_writes_nothing() {
    let mut p = Projection::new();
    let k = key(1);
    // Declares three children but holds only two: decode must fail and
    // no partial child rows may be written.
    let bytes = encode_fleet_ships_declared(
        1,
        key(50),
        3,
        &vec![
            sage_relay::records::FleetShipsInfo { ship: key(100), amount: 1 },
            sage_relay::records::FleetShipsInfo { ship: key(101), amount: 2 },
        ],
    );
    assert_eq!(
        p.apply_update(&update(k, bytes, 10)),
        ApplyOutcome::Failed(sage_relay::wire::DecodeError::TruncatedInput)
    );
    assert_eq!(p.fleet_ships.len(), 0);
}

#[test]
fn stream_of_two_updates_for_one_key_shows_the_second() {
    let mut p = Projection::new();
    let k1 = key(1);
    let d1 = encode_fleet(&fleet_record(
        b"A",
        1,
        UiFleetState::Idle(UiIdle { sector_x: 2, sector_y: 2 }),
    ));
    let d2 = encode_fleet(&fleet_record(
        b"B",
        2,
        UiFleetState::MoveWarp(UiMoveWarp {
            from_sector_x: 2,
            from_sector_y: 2,
            to_sector_x: 5,
            to_sector_y: 5,
            warp_start: 100,
            warp_finish: 200,
        }),
    ));
    let events = vec![
        StreamEvent::Update(update(k1, d1, 10)),
        StreamEvent::Update(update(k1, d2, 11)),
        StreamEvent::Closed,
    ];
    let report = run_ingest(&mut p, &events);
    assert_eq!(report.status, IngestStatus::StreamEnded);
    assert_eq!(report.applied, 2);
    assert_eq!(
        p.fleet.get(k1),
        Some(&SageFleet { pubkey: k1, fleet_label: b"B".to_vec(), faction: 2 })
    );
    match p.fleet_state.get(k1) {
        Some(row) => match row.state {
            FleetState::MoveWarp(mw) => {
                assert_eq!(mw.to_sector_x, 5);
                assert_eq!(mw.warp_start, 100);
            }
            _ => panic!("state should show the second update"),
        },
        None => panic!("state row missing"),
    }
    // No row of the intermediate idle state survives.
    assert_eq!(p.fleet_pos.get(k1), None);
    assert!(p.fleet_warping.get(k1).is_some());
}

#[test]
fn cancellation_completes_the_write_in_flight_and_consumes_no_more() {
    let mut p = Projection::new();
    let k1 = key(1);
    let k2 = key(2);
    let d1 = encode_fleet(&fleet_record(
        b"A",
        1,
        UiFleetState::Idle(UiIdle { sector_x: 2, sector_y: 2 }),
    ));
    let d2 = encode_fleet(&fleet_record(
        b"B",
        2,
        UiFleetState::Idle(UiIdle { sector_x: 3, sector_y: 3 }),
    ));
    let events = vec![
        StreamEvent::Update(update(k1, d1, 10)),
        StreamEvent::Cancelled,
        StreamEvent::Update(update(k2, d2, 11)),
    ];
    let report = run_ingest(&mut p, &events);
    assert_eq!(report.status, IngestStatus::Cancelled);
    assert_eq!(report.applied, 1);
    // The write that was in flight completed...
    assert!(p.fleet.get(k1).is_some());
    // ...and nothing after the signal was consumed.
    assert_eq!(p.fleet.get(k2), None);
    assert_eq!(p.fleet.len(), 1);
}

#[test]
fn stream_end_is_reported_to_the_caller() {
    let mut p = Projection::new();
    let report = run_ingest(&mut p, &vec![StreamEvent::Closed]);
    assert_eq!(report.status, IngestStatus::StreamEnded);
    assert_eq!(report.applied, 0);

    let report = run_ingest(&mut p, &vec![]);
    assert_eq!(report.status, IngestStatus::StreamEnded);
}

#[test]
fn slot_watermark_advances() {
    let mut p = Projection::new();
    assert_eq!(p.config.slot, 0);
    assert_eq!(p.config.id, 0);
    p.update_config_slot(12345);
    assert_eq!(p.config.slot, 12345);
    assert_eq!(p.config.id, 0);
}
