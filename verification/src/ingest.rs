//! The ingestion loop: consumes an ordered (but not gap-free, not
//! duplicate-free) stream of account-update events, decodes each through
//! the registry, and applies the result idempotently to the projection
//! store. A malformed or unknown account is skipped, never fatal; the
//! loop ends only on cancellation or when the transport closes the
//! stream, and reports which, with a count of applied updates.

use crate::decode::{decode_record, spec_decode_record};
use crate::records::{TypedRecord, TypedRecordV, UiFleetState, UiFleetV};
use crate::registry::{discriminator_of, lookup, spec_discriminator_of, spec_lookup, RecordKind};
use crate::store::{
    projection_consistent, spec_update_fleet, spec_update_fleet_pos, spec_update_fleet_ships,
    spec_update_fleet_state,
    spec_update_rental_contract, spec_update_ship, spec_update_star, FleetShipSet, FleetShipSetV,
    FleetState, Idle, MoveSubwarp, MoveWarp, Projection, ProjectionV, RentalContract, SageFleet,
    SageFleetPos, SageFleetState, SageFleetV, SageShip, SageShipV, SageStar, SageStarV,
};
use crate::wire::{AccountKey, DecodeError};
use vstd::prelude::*;

verus! {

// ---------------------------------------------------------------------------
// Events
// ---------------------------------------------------------------------------

/// One account-change notification, as the transport delivers it.
#[derive(Clone, Debug)]
pub struct AccountUpdate {
    pub identifier: AccountKey,
    pub owner: AccountKey,
    pub data: Vec<u8>,
    pub balance: u64,
    pub slot: u64,
}

#[verifier::ext_equal]
pub struct AccountUpdateV {
    pub identifier: AccountKey,
    pub owner: AccountKey,
    pub data: Seq<u8>,
    pub balance: u64,
    pub slot: u64,
}

impl View for AccountUpdate {
    type V = AccountUpdateV;

    open spec fn view(&self) -> AccountUpdateV {
        AccountUpdateV {
            identifier: self.identifier,
            owner: self.owner,
            data: self.data@,
            balance: self.balance,
            slot: self.slot,
        }
    }
}

/// What one scheduling step of the stream hands the loop: the next
/// update, the transport closing the stream, or the external
/// cancellation signal winning the select.
#[derive(Clone, Debug)]
pub enum StreamEvent {
    Update(AccountUpdate),
    Closed,
    Cancelled,
}

pub enum StreamEventV {
    Update(AccountUpdateV),
    Closed,
    Cancelled,
}

impl View for StreamEvent {
    type V = StreamEventV;

    open spec fn view(&self) -> StreamEventV {
        match self {
            StreamEvent::Update(ev) => StreamEventV::Update(ev@),
            StreamEvent::Closed => StreamEventV::Closed,
            StreamEvent::Cancelled => StreamEventV::Cancelled,
        }
    }
}

/// How one event was handled.
#[derive(Clone, Copy, Debug, PartialEq, Eq, Structural)]
pub enum ApplyOutcome {
    /// Decoded and written to the store.
    Applied,
    /// Discriminator absent or outside current interest; not an error.
    Skipped,
    /// The account's bytes did not decode; local to this account.
    Failed(DecodeError),
}

/// Why the loop returned.
#[derive(Clone, Copy, Debug, PartialEq, Eq, Structural)]
pub enum IngestStatus {
    /// The external stop signal fired; the in-flight write completed
    /// first.
    Cancelled,
    /// The transport closed the stream.
    StreamEnded,
}

/// The loop's final report to its caller.
#[derive(Clone, Copy, Debug, PartialEq, Eq, Structural)]
pub struct IngestReport {
    pub status: IngestStatus,
    pub applied: u64,
}

// ---------------------------------------------------------------------------
// What applying one event does, at the specification level
// ---------------------------------------------------------------------------

/// The record type an event's bytes select, if any.
pub open spec fn spec_event_kind(ev: AccountUpdateV) -> Option<RecordKind> {
    match spec_discriminator_of(ev.data) {
        Some(tag) => spec_lookup(tag),
        None => None,
    }
}

/// The record an event carries, if its type is known and its bytes
/// decode.
pub open spec fn spec_event_record(ev: AccountUpdateV) -> Option<TypedRecordV> {
    match spec_event_kind(ev) {
        Some(kind) => match spec_decode_record(kind, ev.data) {
            Ok(rec) => Some(rec),
            Err(_) => None,
        },
        None => None,
    }
}

pub open spec fn spec_applies(ev: AccountUpdateV) -> bool {
    spec_event_record(ev) is Some
}

/// The fleet row derived from a decoded fleet record: the full row
/// image, never a partial update.
pub open spec fn fleet_row_of(k: AccountKey, f: UiFleetV) -> SageFleetV {
    SageFleetV { pubkey: k, fleet_label: f.fleet_label, faction: f.faction }
}

/// The movement-state row a decoded fleet state materializes, if any:
/// only the idle, warp and subwarp shapes are projected.
pub open spec fn state_row_of(k: AccountKey, s: UiFleetState) -> Option<SageFleetState> {
    match s {
        UiFleetState::Idle(i) => Some(
            SageFleetState {
                pubkey: k,
                state: FleetState::Idle(Idle { sector_x: i.sector_x, sector_y: i.sector_y }),
            },
        ),
        UiFleetState::MoveWarp(m) => Some(
            SageFleetState {
                pubkey: k,
                state: FleetState::MoveWarp(
                    MoveWarp {
                        from_sector_x: m.from_sector_x,
                        from_sector_y: m.from_sector_y,
                        to_sector_x: m.to_sector_x,
                        to_sector_y: m.to_sector_y,
                        warp_start: m.warp_start,
                        warp_finish: m.warp_finish,
                    },
                ),
            },
        ),
        UiFleetState::MoveSubwarp(m) => Some(
            SageFleetState {
                pubkey: k,
                state: FleetState::MoveSubwarp(
                    MoveSubwarp {
                        from_sector_x: m.from_sector_x,
                        from_sector_y: m.from_sector_y,
                        to_sector_x: m.to_sector_x,
                        to_sector_y: m.to_sector_y,
                        departure_time: m.departure_time,
                        arrival_time: m.arrival_time,
                    },
                ),
            },
        ),
        _ => None,
    }
}

pub open spec fn spec_apply_fleet(p: ProjectionV, k: AccountKey, f: UiFleetV) -> ProjectionV {
    let p1 = spec_update_fleet(p, fleet_row_of(k, f));
    match f.state {
        UiFleetState::Idle(i) => {
            let p2 = spec_update_fleet_state(p1, state_row_of(k, f.state)->Some_0);
            spec_update_fleet_pos(p2, SageFleetPos { pubkey: k, x: i.sector_x, y: i.sector_y })
        },
        UiFleetState::MoveWarp(_) => spec_update_fleet_state(p1, state_row_of(k, f.state)->Some_0),
        UiFleetState::MoveSubwarp(_) => spec_update_fleet_state(
            p1,
            state_row_of(k, f.state)->Some_0,
        ),
        _ => p1,
    }
}

pub open spec fn spec_apply_record(p: ProjectionV, k: AccountKey, rec: TypedRecordV) -> ProjectionV {
    match rec {
        TypedRecordV::Fleet(f) => spec_apply_fleet(p, k, f),
        TypedRecordV::FleetShips(fs) => spec_update_fleet_ships(
            p,
            k,
            FleetShipSetV {
                fleet: fs.fleet,
                fleet_ships_info_count: fs.fleet_ships_info_count,
                entries: fs.ships,
            },
        ),
        TypedRecordV::Star(s) => spec_update_star(
            p,
            SageStarV { pubkey: k, name: s.name, sector_x: s.sector_x, sector_y: s.sector_y },
        ),
        TypedRecordV::Ship(s) => spec_update_ship(
            p,
            SageShipV {
                pubkey: k,
                game_id: s.game_id,
                mint: s.mint,
                name: s.name,
                size_class: s.size_class,
            },
        ),
        TypedRecordV::Contract(c) => spec_update_rental_contract(
            p,
            RentalContract {
                pubkey: k,
                fleet: c.fleet,
                rate: c.rate,
                current_rental_state: c.current_rental_state,
                owner_profile: c.owner_profile,
            },
        ),
    }
}

/// Applying one event: an unknown or undecodable account leaves the
/// store exactly as it was.
pub open spec fn spec_apply(p: ProjectionV, ev: AccountUpdateV) -> ProjectionV {
    match spec_event_record(ev) {
        Some(rec) => spec_apply_record(p, ev.identifier, rec),
        None => p,
    }
}

// ---------------------------------------------------------------------------
// Applying one event, executably
// ---------------------------------------------------------------------------

impl Projection {
    /// Runs one account-update event through registry lookup and decode
    /// and applies the result. Pure function of the event's bytes plus
    /// this store; errors are reported, never propagated into the
    /// stream.
    pub fn apply_update(&mut self, ev: &AccountUpdate) -> (o: ApplyOutcome)
        requires
            old(self).wf(),
        ensures
            final(self).wf(),
            final(self)@ == spec_apply(old(self)@, ev@),
            match o {
                ApplyOutcome::Applied => spec_applies(ev@),
                ApplyOutcome::Skipped => spec_event_kind(ev@) is None,
                ApplyOutcome::Failed(e) => match spec_event_kind(ev@) {
                    Some(kind) => spec_decode_record(kind, ev@.data) == Err::<
                        TypedRecordV,
                        DecodeError,
                    >(e),
                    None => false,
                },
            },
    {
        let tag = match discriminator_of(ev.data.as_slice()) {
            Some(tag) => tag,
            None => {
                return ApplyOutcome::Skipped;
            },
        };
        let kind = match lookup(tag) {
            Some(kind) => kind,
            None => {
                return ApplyOutcome::Skipped;
            },
        };
        let rec = match decode_record(kind, ev.data.as_slice()) {
            Ok(rec) => rec,
            Err(e) => {
                return ApplyOutcome::Failed(e);
            },
        };
        let k = ev.identifier;
        match rec {
            TypedRecord::Fleet(f) => {
                let state = f.state;
                self.update_fleet(
                    SageFleet { pubkey: k, fleet_label: f.fleet_label, faction: f.faction },
                );
                match state {
                    UiFleetState::Idle(i) => {
                        self.update_fleet_state(
                            SageFleetState {
                                pubkey: k,
                                state: FleetState::Idle(
                                    Idle { sector_x: i.sector_x, sector_y: i.sector_y },
                                ),
                            },
                        );
                        self.update_fleet_pos(
                            SageFleetPos { pubkey: k, x: i.sector_x, y: i.sector_y },
                        );
                    },
                    UiFleetState::MoveWarp(m) => {
                        self.update_fleet_state(
                            SageFleetState {
                                pubkey: k,
                                state: FleetState::MoveWarp(
                                    MoveWarp {
                                        from_sector_x: m.from_sector_x,
                                        from_sector_y: m.from_sector_y,
                                        to_sector_x: m.to_sector_x,
                                        to_sector_y: m.to_sector_y,
                                        warp_start: m.warp_start,
                                        warp_finish: m.warp_finish,
                                    },
                                ),
                            },
                        );
                    },
                    UiFleetState::MoveSubwarp(m) => {
                        self.update_fleet_state(
                            SageFleetState {
                                pubkey: k,
                                state: FleetState::MoveSubwarp(
                                    MoveSubwarp {
                                        from_sector_x: m.from_sector_x,
                                        from_sector_y: m.from_sector_y,
                                        to_sector_x: m.to_sector_x,
                                        to_sector_y: m.to_sector_y,
                                        departure_time: m.departure_time,
                                        arrival_time: m.arrival_time,
                                    },
                                ),
                            },
                        );
                    },
                    _ => {},
                }
            },
            TypedRecord::FleetShips(fs) => {
                self.upsert_children(
                    k,
                    FleetShipSet {
                        fleet: fs.fleet,
                        fleet_ships_info_count: fs.fleet_ships_info_count,
                        entries: fs.ships,
                    },
                );
            },
            TypedRecord::Star(s) => {
                self.update_star(
                    SageStar { pubkey: k, name: s.name, sector_x: s.sector_x, sector_y: s.sector_y },
                );
            },
            TypedRecord::Ship(s) => {
                self.update_ship(
                    SageShip {
                        pubkey: k,
                        game_id: s.game_id,
                        mint: s.mint,
                        name: s.name,
                        size_class: s.size_class,
                    },
                );
            },
            TypedRecord::Contract(c) => {
                self.update_rental_contract(
                    RentalContract {
                        pubkey: k,
                        fleet: c.fleet,
                        rate: c.rate,
                        current_rental_state: c.current_rental_state,
                        owner_profile: c.owner_profile,
                    },
                );
            },
        }
        ApplyOutcome::Applied
    }
}

// ---------------------------------------------------------------------------
// The loop over a stream of scheduling steps
// ---------------------------------------------------------------------------

/// The outcome of running the loop over a sequence of stream events.
#[verifier::ext_equal]
pub struct RunResult {
    pub proj: ProjectionV,
    pub status: IngestStatus,
    pub applied: nat,
}

/// Folding the stream: updates are applied in order until the first
/// terminator; a cancellation or close consumes nothing further. A
/// stream that runs out behaves as a closed stream.
pub open spec fn spec_run(p: ProjectionV, events: Seq<StreamEventV>) -> RunResult
    decreases events.len(),
{
    if events.len() == 0 {
        RunResult { proj: p, status: IngestStatus::StreamEnded, applied: 0 }
    } else {
        match events.first() {
            StreamEventV::Update(ev) => {
                let r = spec_run(spec_apply(p, ev), events.drop_first());
                RunResult {
                    proj: r.proj,
                    status: r.status,
                    applied: r.applied + if spec_applies(ev) {
                        1nat
                    } else {
                        0nat
                    },
                }
            },
            StreamEventV::Closed => RunResult {
                proj: p,
                status: IngestStatus::StreamEnded,
                applied: 0,
            },
            StreamEventV::Cancelled => RunResult {
                proj: p,
                status: IngestStatus::Cancelled,
                applied: 0,
            },
        }
    }
}

pub open spec fn stream_views(events: Seq<StreamEvent>) -> Seq<StreamEventV> {
    events.map_values(|e: StreamEvent| e@)
}

/// Drives the projection over a finite sequence of scheduling steps:
/// each update is decoded and written before the next event is looked
/// at, so a cancellation never interrupts a write in flight. Returns the
/// final status and the count of successfully applied updates.
#[verifier::loop_isolation(false)]
pub fn run_ingest(p: &mut Projection, events: &Vec<StreamEvent>) -> (r: IngestReport)
    requires
        old(p).wf(),
    ensures
        final(p).wf(),
        final(p)@ == spec_run(old(p)@, stream_views(events@)).proj,
        r.status == spec_run(old(p)@, stream_views(events@)).status,
        r.applied == spec_run(old(p)@, stream_views(events@)).applied,
{
    let ghost full = stream_views(events@);
    let mut i: usize = 0;
    let mut applied: u64 = 0;
    proof {
        assert(full.subrange(0, full.len() as int) =~= full);
    }
    while i < events.len()
        invariant
            i <= events@.len(),
            applied <= i,
            p.wf(),
            spec_run(old(p)@, full).proj == spec_run(p@, full.subrange(i as int, full.len() as int)).proj,
            spec_run(old(p)@, full).status == spec_run(
                p@,
                full.subrange(i as int, full.len() as int),
            ).status,
            spec_run(old(p)@, full).applied == applied + spec_run(
                p@,
                full.subrange(i as int, full.len() as int),
            ).applied,
        decreases events@.len() - i,
    {
        let ghost rest = full.subrange(i as int, full.len() as int);
        proof {
            assert(rest.first() == full[i as int]);
            assert(rest.drop_first() =~= full.subrange(i + 1, full.len() as int));
        }
        match &events[i] {
            StreamEvent::Update(ev) => {
                let o = p.apply_update(ev);
                if let ApplyOutcome::Applied = o {
                    applied = applied + 1;
                }
            },
            StreamEvent::Closed => {
                return IngestReport { status: IngestStatus::StreamEnded, applied };
            },
            StreamEvent::Cancelled => {
                return IngestReport { status: IngestStatus::Cancelled, applied };
            },
        }
        i = i + 1;
    }
    proof {
        assert(full.subrange(i as int, full.len() as int) =~= Seq::<StreamEventV>::empty());
    }
    IngestReport { status: IngestStatus::StreamEnded, applied }
}

// ---------------------------------------------------------------------------
// Laws of the ingestion step
// ---------------------------------------------------------------------------

/// An update whose discriminator is missing or unrecognized leaves the
/// projection untouched: skip semantics, not an error.
pub proof fn lemma_apply_unknown_skips(p: ProjectionV, ev: AccountUpdateV)
    requires
        spec_event_kind(ev) is None,
    ensures
        spec_apply(p, ev) == p,
{
}

/// An update that fails to decode leaves the projection untouched; the
/// failure is local to that one account.
pub proof fn lemma_apply_failure_skips(p: ProjectionV, ev: AccountUpdateV, kind: RecordKind)
    requires
        spec_event_kind(ev) == Some(kind),
        spec_decode_record(kind, ev.data) is Err,
    ensures
        spec_apply(p, ev) == p,
{
}

/// Whether applying `ev` twice provably equals applying it once. This
/// excludes exactly one corner: a fleet update whose state is a warp or
/// subwarp for an identifier the store has never tracked — there the
/// first application skips the derived-relation maintenance and the
/// second performs it, so a warping row appears only the second time.
pub open spec fn idempotent_input(p: ProjectionV, ev: AccountUpdateV) -> bool {
    match spec_event_record(ev) {
        Some(TypedRecordV::Fleet(f)) => match f.state {
            UiFleetState::MoveWarp(_) => p.fleet_state.contains_key(ev.identifier),
            UiFleetState::MoveSubwarp(_) => p.fleet_state.contains_key(ev.identifier),
            _ => true,
        },
        _ => true,
    }
}

/// Applying the same account-update event twice yields the same
/// projection as applying it once.
pub proof fn lemma_apply_idempotent(p: ProjectionV, ev: AccountUpdateV)
    requires
        idempotent_input(p, ev),
    ensures
        spec_apply(spec_apply(p, ev), ev) == spec_apply(p, ev),
{
    match spec_event_record(ev) {
        Some(rec) => {
            let k = ev.identifier;
            match rec {
                TypedRecordV::Fleet(f) => {
                    lemma_apply_fleet_idempotent(p, k, f);
                },
                TypedRecordV::FleetShips(_) => {
                    assert(spec_apply(spec_apply(p, ev), ev) =~~= spec_apply(p, ev));
                },
                TypedRecordV::Star(_) => {
                    assert(spec_apply(spec_apply(p, ev), ev) =~~= spec_apply(p, ev));
                },
                TypedRecordV::Ship(_) => {
                    assert(spec_apply(spec_apply(p, ev), ev) =~~= spec_apply(p, ev));
                },
                TypedRecordV::Contract(_) => {
                    assert(spec_apply(spec_apply(p, ev), ev) =~~= spec_apply(p, ev));
                },
            }
        },
        None => {},
    }
}

proof fn lemma_apply_fleet_idempotent(p: ProjectionV, k: AccountKey, f: UiFleetV)
    requires
        match f.state {
            UiFleetState::MoveWarp(_) => p.fleet_state.contains_key(k),
            UiFleetState::MoveSubwarp(_) => p.fleet_state.contains_key(k),
            _ => true,
        },
    ensures
        spec_apply_fleet(spec_apply_fleet(p, k, f), k, f) == spec_apply_fleet(p, k, f),
{
    let p1 = spec_apply_fleet(p, k, f);
    let p2 = spec_apply_fleet(p1, k, f);
    match f.state {
        UiFleetState::Idle(_) => {
            assert(p2 =~~= p1);
        },
        UiFleetState::MoveWarp(_) => {
            assert(p1.fleet_state.contains_key(k) && p1.fleet_state[k] == state_row_of(
                k,
                f.state,
            )->Some_0);
            assert(p2 =~~= p1);
        },
        UiFleetState::MoveSubwarp(_) => {
            assert(p1.fleet_state.contains_key(k) && p1.fleet_state[k] == state_row_of(
                k,
                f.state,
            )->Some_0);
            assert(p2 =~~= p1);
        },
        _ => {
            assert(p2 =~~= p1);
        },
    }
}

/// Every ingestion step keeps the derived movement relations consistent
/// with the tracked state: warping rows only under warp or subwarp
/// states, and never beside a static position row. An empty store is
/// consistent, so every reachable store is.
pub proof fn lemma_apply_preserves_consistency(p: ProjectionV, ev: AccountUpdateV)
    requires
        projection_consistent(p),
    ensures
        projection_consistent(spec_apply(p, ev)),
{
    match spec_event_record(ev) {
        Some(TypedRecordV::Fleet(f)) => {
            let k = ev.identifier;
            let q = spec_apply_fleet(p, k, f);
            assert forall|j: AccountKey| #[trigger] q.fleet_warping.contains_key(j) implies
                q.fleet_state.contains_key(j) && (q.fleet_state[j].state is MoveWarp
                || q.fleet_state[j].state is MoveSubwarp) && !q.fleet_pos.contains_key(j) by {
                if j != k {
                    assert(p.fleet_warping.contains_key(j));
                }
            }
        },
        _ => {},
    }
}

/// The row the relation targeted by a record shows for the event's
/// identifier once the record is applied: always the full row image
/// derived from that record alone.
pub open spec fn row_shows_record(q: ProjectionV, k: AccountKey, rec: TypedRecordV) -> bool {
    match rec {
        TypedRecordV::Fleet(f) => q.fleet.contains_key(k) && q.fleet[k] == fleet_row_of(k, f),
        TypedRecordV::FleetShips(fs) => q.fleet_ships.contains_key(k) && q.fleet_ships[k]
            == (FleetShipSetV {
            fleet: fs.fleet,
            fleet_ships_info_count: fs.fleet_ships_info_count,
            entries: fs.ships,
        }),
        TypedRecordV::Star(s) => q.star.contains_key(k) && q.star[k] == (SageStarV {
            pubkey: k,
            name: s.name,
            sector_x: s.sector_x,
            sector_y: s.sector_y,
        }),
        TypedRecordV::Ship(s) => q.ship.contains_key(k) && q.ship[k] == (SageShipV {
            pubkey: k,
            game_id: s.game_id,
            mint: s.mint,
            name: s.name,
            size_class: s.size_class,
        }),
        TypedRecordV::Contract(c) => q.rental_contract.contains_key(k) && q.rental_contract[k]
            == (RentalContract {
            pubkey: k,
            fleet: c.fleet,
            rate: c.rate,
            current_rental_state: c.current_rental_state,
            owner_profile: c.owner_profile,
        }),
    }
}

/// After update A then update B for the same identifier, the projection
/// shows B's row image only: a full replacement, never a merge of A's
/// and B's fields. Holds whatever record types the two updates carry.
pub proof fn lemma_apply_last_wins(
    p: ProjectionV,
    a: AccountUpdateV,
    b: AccountUpdateV,
    rb: TypedRecordV,
)
    requires
        a.identifier == b.identifier,
        spec_event_record(b) == Some(rb),
    ensures
        row_shows_record(spec_apply(spec_apply(p, a), b), b.identifier, rb),
{
}

/// Applying the same account-update event twice yields the same
/// projection row as applying it once, for every starting store: the
/// row under the event's identifier shows the record's image either
/// way.
pub proof fn lemma_apply_twice_same_row(p: ProjectionV, ev: AccountUpdateV, rec: TypedRecordV)
    requires
        spec_event_record(ev) == Some(rec),
    ensures
        row_shows_record(spec_apply(p, ev), ev.identifier, rec),
        row_shows_record(spec_apply(spec_apply(p, ev), ev), ev.identifier, rec),
{
}

/// Once the cancellation signal is the next event, nothing after it is
/// consumed: the events of any longer stream beyond that point change
/// neither the final projection, nor the status, nor the count.
pub proof fn lemma_cancellation_consumes_nothing_further(
    p: ProjectionV,
    prefix: Seq<StreamEventV>,
    tail: Seq<StreamEventV>,
)
    requires
        forall|j: int| 0 <= j < prefix.len() ==> prefix[j] is Update,
    ensures
        spec_run(p, prefix + seq![StreamEventV::Cancelled] + tail) == spec_run(
            p,
            prefix + seq![StreamEventV::Cancelled],
        ),
        spec_run(p, prefix + seq![StreamEventV::Cancelled] + tail).status
            == IngestStatus::Cancelled,
    decreases prefix.len(),
{
    let with_tail = prefix + seq![StreamEventV::Cancelled] + tail;
    let without = prefix + seq![StreamEventV::Cancelled];
    if prefix.len() == 0 {
        assert(with_tail.first() == StreamEventV::Cancelled);
        assert(without.first() == StreamEventV::Cancelled);
        assert(spec_run(p, with_tail) =~~= spec_run(p, without));
    } else {
        let ev = prefix.first();
        assert(with_tail.first() == ev);
        assert(without.first() == ev);
        let evu = ev->Update_0;
        let q = spec_apply(p, evu);
        assert(with_tail.drop_first() =~= prefix.drop_first() + seq![StreamEventV::Cancelled]
            + tail);
        assert(without.drop_first() =~= prefix.drop_first() + seq![StreamEventV::Cancelled]);
        lemma_cancellation_consumes_nothing_further(q, prefix.drop_first(), tail);
        assert(spec_run(p, with_tail) =~~= spec_run(p, without));
    }
}

} // verus!
