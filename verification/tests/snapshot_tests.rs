use sage_relay::decode::encode_star;
use sage_relay::ingest::{AccountUpdate, ApplyOutcome};
use sage_relay::records::Star;
use sage_relay::registry::{FLEET_DISCRIMINATOR, STAR_DISCRIMINATOR};
use sage_relay::snapshot::{
    decode_snapshot, encode_snapshot, load_archive, save_archive, ArchiveError, RawAccount,
    Snapshot, SnapshotAccount, SnapshotGroup,
};
use sage_relay::store::Projection;
use sage_relay::wire::{AccountKey, DecodeError};

fn key(n: u64) -> AccountKey {
    AccountKey { w0: n, w1: n + 1, w2: n + 2, w3: n + 3 }
}

fn account(n: u64, data: Vec<u8>) -> SnapshotAccount {
    SnapshotAccount {
        identifier: key(n),
        account: RawAccount {
            owner: key(n + 1000),
            balance: 10 * n,
            data,
            executable: false,
            epoch: 361,
        },
    }
}

#[test]
fn snapshot_round_trip_empty_collection() {
    let snap = Snapshot { groups: vec![] };
    let bytes = encode_snapshot(&snap);
    assert_eq!(decode_snapshot(&bytes), Ok(snap));
}

#[test]
fn snapshot_round_trip_single_entry() {
    let snap = Snapshot {
        groups: vec![SnapshotGroup {
            discriminator: STAR_DISCRIMINATOR,
            accounts: vec![account(1, vec![1, 2, 3])],
        }],
    };
    let bytes = encode_snapshot(&snap);
    assert_eq!(decode_snapshot(&bytes), Ok(snap));
}

#[test]
fn snapshot_round_trip_zero_length_data_and_many_groups() {
    let snap = Snapshot {
        groups: vec![
            SnapshotGroup {
                discriminator: STAR_DISCRIMINATOR,
                accounts: vec![account(1, vec![]), account(2, vec![0; 100])],
            },
            SnapshotGroup { discriminator: FLEET_DISCRIMINATOR, accounts: vec![] },
            SnapshotGroup {
                discriminator: 7,
                accounts: vec![
                    SnapshotAccount {
                        identifier: key(9),
                        account: RawAccount {
                            owner: key(10),
                            balance: u64::MAX,
                            data: vec![255; 7],
                            executable: true,
                            epoch: u64::MAX,
                        },
                    },
                ],
            },
        ],
    };
    let bytes = encode_snapshot(&snap);
    assert_eq!(decode_snapshot(&bytes), Ok(snap));
}

#[test]
fn snapshot_trailing_bytes_fail_loudly() {
    let snap = Snapshot {
        groups: vec![SnapshotGroup {
            discriminator: STAR_DISCRIMINATOR,
            accounts: vec![account(1, vec![1, 2, 3])],
        }],
    };
    let mut bytes = encode_snapshot(&snap);
    bytes.push(0);
    assert_eq!(
        decode_snapshot(&bytes),
        Err(ArchiveError::Malformed(DecodeError::TrailingBytes))
    );
}

#[test]
fn snapshot_truncation_fails_loudly() {
    let snap = Snapshot {
        groups: vec![SnapshotGroup {
            discriminator: STAR_DISCRIMINATOR,
            accounts: vec![account(1, vec![1, 2, 3])],
        }],
    };
    let mut bytes = encode_snapshot(&snap);
    bytes.truncate(bytes.len() - 2);
    assert_eq!(
        decode_snapshot(&bytes),
        Err(ArchiveError::Malformed(DecodeError::TruncatedInput))
    );
}

#[test]
fn archive_round_trip_through_compression() {
    let snap = Snapshot {
        groups: vec![
            SnapshotGroup {
                discriminator: STAR_DISCRIMINATOR,
                accounts: vec![account(1, vec![9; 300]), account(2, vec![])],
            },
            SnapshotGroup { discriminator: FLEET_DISCRIMINATOR, accounts: vec![] },
        ],
    };
    let archive = save_archive(&snap);
    // The archive is a compressed envelope, not the bare container.
    assert_ne!(archive, encode_snapshot(&snap));
    assert_eq!(load_archive(&archive), Ok(snap));
}

#[test]
fn archive_round_trip_empty_collection() {
    let snap = Snapshot { groups: vec![] };
    let archive = save_archive(&snap);
    assert_eq!(load_archive(&archive), Ok(snap));
}

#[test]
fn corrupt_envelope_is_a_distinct_error() {
    let garbage = b"this is not a compressed archive".to_vec();
    assert_eq!(load_archive(&garbage), Err(ArchiveError::Decompress));
    assert_eq!(load_archive(&Vec::new()), Err(ArchiveError::Decompress));
}

#[test]
fn corrupt_container_inside_a_valid_envelope_is_malformed() {
    let snap = Snapshot {
        groups: vec![SnapshotGroup {
            discriminator: STAR_DISCRIMINATOR,
            accounts: vec![account(1, vec![1, 2, 3])],
        }],
    };
    let mut archive = save_archive(&snap);
    // Flip bits in the compressed body; either the envelope checksum or
    // the container structure must reject it — never a partial result.
    let mid = archive.len() / 2;
    archive[mid] ^= 0xFF;
    match load_archive(&archive) {
        Ok(_) => panic!("a corrupted archive must not load"),
        Err(_) => {}
    }
}

#[test]
fn restored_accounts_replay_into_the_projection() {
    let star = Star {
        version: 0,
        game_id: key(5),
        name: b"polaris".to_vec(),
        sector_x: 4,
        sector_y: -4,
    };
    let snap = Snapshot {
        groups: vec![SnapshotGroup {
            discriminator: STAR_DISCRIMINATOR,
            accounts: vec![account(77, encode_star(&star))],
        }],
    };
    let restored = load_archive(&save_archive(&snap)).unwrap();
    let mut p = Projection::new();
    for group in &restored.groups {
        for sa in &group.accounts {
            let ev = AccountUpdate {
                identifier: sa.identifier,
                owner: sa.account.owner,
                data: sa.account.data.clone(),
                balance: sa.account.balance,
                slot: 0,
            };
            assert_eq!(p.apply_update(&ev), ApplyOutcome::Applied);
        }
    }
    let row = p.star.get(key(77)).unwrap();
    assert_eq!(row.name, b"polaris".to_vec());
    assert_eq!(row.sector_x, 4);
}
