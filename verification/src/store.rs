//! The projection store: the queryable, relational image of the decoded
//! account state. One relation per known record type, keyed by account
//! identifier; child arrays are replaced as a whole set so stale children
//! never outlive a shrinking count. Every write replaces the full row
//! image; there is no merging of old and new fields.

use crate::records::FleetShipsInfo;
use crate::table::Table;
use crate::wire::AccountKey;
use vstd::prelude::*;

verus! {

// ---------------------------------------------------------------------------
// Row types
// ---------------------------------------------------------------------------

/// The process-wide slot watermark row.
#[derive(Clone, Copy, Debug, PartialEq, Eq, Structural)]
pub struct Config {
    pub id: u32,
    pub slot: u64,
}

#[derive(Clone, Debug, PartialEq)]
pub struct SageFleet {
    pub pubkey: AccountKey,
    pub fleet_label: Vec<u8>,
    pub faction: u8,
}

#[verifier::ext_equal]
pub struct SageFleetV {
    pub pubkey: AccountKey,
    pub fleet_label: Seq<u8>,
    pub faction: u8,
}

impl View for SageFleet {
    type V = SageFleetV;

    open spec fn view(&self) -> SageFleetV {
        SageFleetV { pubkey: self.pubkey, fleet_label: self.fleet_label@, faction: self.faction }
    }
}

#[derive(Clone, Copy, Debug, PartialEq, Eq, Structural)]
pub struct Idle {
    pub sector_x: i64,
    pub sector_y: i64,
}

#[derive(Clone, Copy, Debug, PartialEq, Eq, Structural)]
pub struct MoveWarp {
    pub from_sector_x: i64,
    pub from_sector_y: i64,
    pub to_sector_x: i64,
    pub to_sector_y: i64,
    pub warp_start: i64,
    pub warp_finish: i64,
}

#[derive(Clone, Copy, Debug, PartialEq, Eq, Structural)]
pub struct MoveSubwarp {
    pub from_sector_x: i64,
    pub from_sector_y: i64,
    pub to_sector_x: i64,
    pub to_sector_y: i64,
    pub departure_time: i64,
    pub arrival_time: i64,
}

/// The projected fleet movement state: only the shapes the projection
/// materializes; the remaining decoder variants leave these rows alone.
#[derive(Clone, Copy, Debug, PartialEq, Eq, Structural)]
pub enum FleetState {
    Idle(Idle),
    MoveWarp(MoveWarp),
    MoveSubwarp(MoveSubwarp),
}

#[derive(Clone, Copy, Debug, PartialEq, Eq, Structural)]
pub struct SageFleetState {
    pub pubkey: AccountKey,
    pub state: FleetState,
}

#[derive(Clone, Copy, Debug, PartialEq, Eq, Structural)]
pub struct SageFleetPos {
    pub pubkey: AccountKey,
    pub x: i64,
    pub y: i64,
}

#[derive(Clone, Copy, Debug, PartialEq, Eq, Structural)]
pub struct SageFleetWarping {
    pub pubkey: AccountKey,
    pub from_sector_x: i64,
    pub from_sector_y: i64,
    pub to_sector_x: i64,
    pub to_sector_y: i64,
    pub slot_start: u64,
    pub slot_finish: u64,
}

#[derive(Clone, Debug, PartialEq)]
pub struct SageStar {
    pub pubkey: AccountKey,
    pub name: Vec<u8>,
    pub sector_x: i64,
    pub sector_y: i64,
}

#[verifier::ext_equal]
pub struct SageStarV {
    pub pubkey: AccountKey,
    pub name: Seq<u8>,
    pub sector_x: i64,
    pub sector_y: i64,
}

impl View for SageStar {
    type V = SageStarV;

    open spec fn view(&self) -> SageStarV {
        SageStarV {
            pubkey: self.pubkey,
            name: self.name@,
            sector_x: self.sector_x,
            sector_y: self.sector_y,
        }
    }
}

#[derive(Clone, Debug, PartialEq)]
pub struct SageShip {
    pub pubkey: AccountKey,
    pub game_id: AccountKey,
    pub mint: AccountKey,
    pub name: Vec<u8>,
    pub size_class: u8,
}

#[verifier::ext_equal]
pub struct SageShipV {
    pub pubkey: AccountKey,
    pub game_id: AccountKey,
    pub mint: AccountKey,
    pub name: Seq<u8>,
    pub size_class: u8,
}

impl View for SageShip {
    type V = SageShipV;

    open spec fn view(&self) -> SageShipV {
        SageShipV {
            pubkey: self.pubkey,
            game_id: self.game_id,
            mint: self.mint,
            name: self.name@,
            size_class: self.size_class,
        }
    }
}

/// The projected rental-contract row.
#[derive(Clone, Copy, Debug, PartialEq, Eq, Structural)]
pub struct RentalContract {
    pub pubkey: AccountKey,
    pub fleet: AccountKey,
    pub rate: u64,
    pub current_rental_state: AccountKey,
    pub owner_profile: AccountKey,
}

/// The full child set of one fleet-ships account: each entry is
/// addressed by (parent identifier, position in this list) and the set
/// is only ever replaced as a whole.
#[derive(Clone, Debug, PartialEq)]
pub struct FleetShipSet {
    pub fleet: AccountKey,
    pub fleet_ships_info_count: u32,
    pub entries: Vec<FleetShipsInfo>,
}

#[verifier::ext_equal]
pub struct FleetShipSetV {
    pub fleet: AccountKey,
    pub fleet_ships_info_count: u32,
    pub entries: Seq<FleetShipsInfo>,
}

impl View for FleetShipSet {
    type V = FleetShipSetV;

    open spec fn view(&self) -> FleetShipSetV {
        FleetShipSetV {
            fleet: self.fleet,
            fleet_ships_info_count: self.fleet_ships_info_count,
            entries: self.entries@,
        }
    }
}

// Plain rows are their own specification image.
impl View for Config {
    type V = Config;

    open spec fn view(&self) -> Config {
        *self
    }
}

impl View for SageFleetState {
    type V = SageFleetState;

    open spec fn view(&self) -> SageFleetState {
        *self
    }
}

impl View for SageFleetPos {
    type V = SageFleetPos;

    open spec fn view(&self) -> SageFleetPos {
        *self
    }
}

impl View for SageFleetWarping {
    type V = SageFleetWarping;

    open spec fn view(&self) -> SageFleetWarping {
        *self
    }
}

impl View for RentalContract {
    type V = RentalContract;

    open spec fn view(&self) -> RentalContract {
        *self
    }
}

// ---------------------------------------------------------------------------
// The store
// ---------------------------------------------------------------------------

/// The specification image of the whole store: one map per relation.
#[verifier::ext_equal]
pub struct ProjectionV {
    pub config: Config,
    pub fleet: Map<AccountKey, SageFleetV>,
    pub fleet_state: Map<AccountKey, SageFleetState>,
    pub fleet_pos: Map<AccountKey, SageFleetPos>,
    pub fleet_warping: Map<AccountKey, SageFleetWarping>,
    pub star: Map<AccountKey, SageStarV>,
    pub ship: Map<AccountKey, SageShipV>,
    pub rental_contract: Map<AccountKey, RentalContract>,
    pub fleet_ships: Map<AccountKey, FleetShipSetV>,
}

pub struct Projection {
    pub config: Config,
    pub fleet: Table<SageFleet>,
    pub fleet_state: Table<SageFleetState>,
    pub fleet_pos: Table<SageFleetPos>,
    pub fleet_warping: Table<SageFleetWarping>,
    pub star: Table<SageStar>,
    pub ship: Table<SageShip>,
    pub rental_contract: Table<RentalContract>,
    pub fleet_ships: Table<FleetShipSet>,
}

impl View for Projection {
    type V = ProjectionV;

    open spec fn view(&self) -> ProjectionV {
        ProjectionV {
            config: self.config,
            fleet: self.fleet@,
            fleet_state: self.fleet_state@,
            fleet_pos: self.fleet_pos@,
            fleet_warping: self.fleet_warping@,
            star: self.star@,
            ship: self.ship@,
            rental_contract: self.rental_contract@,
            fleet_ships: self.fleet_ships@,
        }
    }
}

// ---------------------------------------------------------------------------
// What each write does, at the specification level
// ---------------------------------------------------------------------------

pub open spec fn spec_update_fleet(p: ProjectionV, fleet: SageFleetV) -> ProjectionV {
    ProjectionV { fleet: p.fleet.insert(fleet.pubkey, fleet), ..p }
}

pub open spec fn spec_update_fleet_pos(p: ProjectionV, pos: SageFleetPos) -> ProjectionV {
    ProjectionV { fleet_pos: p.fleet_pos.insert(pos.pubkey, pos), ..p }
}

pub open spec fn spec_update_star(p: ProjectionV, star: SageStarV) -> ProjectionV {
    ProjectionV { star: p.star.insert(star.pubkey, star), ..p }
}

pub open spec fn spec_update_ship(p: ProjectionV, ship: SageShipV) -> ProjectionV {
    ProjectionV { ship: p.ship.insert(ship.pubkey, ship), ..p }
}

pub open spec fn spec_update_rental_contract(p: ProjectionV, c: RentalContract) -> ProjectionV {
    ProjectionV { rental_contract: p.rental_contract.insert(c.pubkey, c), ..p }
}

pub open spec fn spec_update_fleet_ships(
    p: ProjectionV,
    parent: AccountKey,
    set: FleetShipSetV,
) -> ProjectionV {
    ProjectionV { fleet_ships: p.fleet_ships.insert(parent, set), ..p }
}

/// The movement-state write: besides replacing the state row, it keeps
/// the derived position and warping relations consistent — a fleet that
/// starts moving loses its position row and gains a warping row, one
/// that goes idle the reverse. The derived rows are only maintained for
/// fleets whose state was already tracked.
pub open spec fn spec_update_fleet_state(p: ProjectionV, st: SageFleetState) -> ProjectionV {
    let k = st.pubkey;
    if p.fleet_state.contains_key(k) {
        let found = p.fleet_state[k];
        let warping = match found.state {
            FleetState::MoveWarp(_) => p.fleet_warping.remove(k),
            FleetState::MoveSubwarp(_) => p.fleet_warping.remove(k),
            _ => p.fleet_warping,
        };
        match st.state {
            FleetState::Idle(idle) => ProjectionV {
                fleet_state: p.fleet_state.insert(k, st),
                fleet_pos: p.fleet_pos.insert(
                    k,
                    SageFleetPos { pubkey: k, x: idle.sector_x, y: idle.sector_y },
                ),
                fleet_warping: warping,
                ..p
            },
            FleetState::MoveWarp(mw) => ProjectionV {
                fleet_state: p.fleet_state.insert(k, st),
                fleet_pos: p.fleet_pos.remove(k),
                fleet_warping: warping.insert(
                    k,
                    SageFleetWarping {
                        pubkey: k,
                        from_sector_x: mw.from_sector_x,
                        from_sector_y: mw.from_sector_y,
                        to_sector_x: mw.to_sector_x,
                        to_sector_y: mw.to_sector_y,
                        slot_start: mw.warp_start as u64,
                        slot_finish: mw.warp_finish as u64,
                    },
                ),
                ..p
            },
            FleetState::MoveSubwarp(ms) => ProjectionV {
                fleet_state: p.fleet_state.insert(k, st),
                fleet_pos: p.fleet_pos.remove(k),
                fleet_warping: warping.insert(
                    k,
                    SageFleetWarping {
                        pubkey: k,
                        from_sector_x: ms.from_sector_x,
                        from_sector_y: ms.from_sector_y,
                        to_sector_x: ms.to_sector_x,
                        to_sector_y: ms.to_sector_y,
                        slot_start: ms.departure_time as u64,
                        slot_finish: ms.arrival_time as u64,
                    },
                ),
                ..p
            },
        }
    } else {
        ProjectionV { fleet_state: p.fleet_state.insert(k, st), ..p }
    }
}

/// Consistency of the derived movement relations: a warping row exists
/// only for a fleet whose tracked state is a warp or subwarp, and no
/// fleet is shown both warping and parked at a static position.
pub open spec fn projection_consistent(p: ProjectionV) -> bool {
    &&& forall|k: AccountKey| #[trigger]
        p.fleet_warping.contains_key(k) ==> p.fleet_state.contains_key(k) && (
        p.fleet_state[k].state is MoveWarp || p.fleet_state[k].state is MoveSubwarp)
    &&& forall|k: AccountKey| #[trigger]
        p.fleet_warping.contains_key(k) ==> !p.fleet_pos.contains_key(k)
}

impl Projection {
    pub open spec fn wf(&self) -> bool {
        &&& self.fleet.wf()
        &&& self.fleet_state.wf()
        &&& self.fleet_pos.wf()
        &&& self.fleet_warping.wf()
        &&& self.star.wf()
        &&& self.ship.wf()
        &&& self.rental_contract.wf()
        &&& self.fleet_ships.wf()
    }

    /// An empty store, with the watermark row initialized once.
    pub fn new() -> (p: Projection)
        ensures
            p.wf(),
            p@.config == (Config { id: 0, slot: 0 }),
            p@.fleet == Map::<AccountKey, SageFleetV>::empty(),
            p@.fleet_state == Map::<AccountKey, SageFleetState>::empty(),
            p@.fleet_pos == Map::<AccountKey, SageFleetPos>::empty(),
            p@.fleet_warping == Map::<AccountKey, SageFleetWarping>::empty(),
            p@.star == Map::<AccountKey, SageStarV>::empty(),
            p@.ship == Map::<AccountKey, SageShipV>::empty(),
            p@.rental_contract == Map::<AccountKey, RentalContract>::empty(),
            p@.fleet_ships == Map::<AccountKey, FleetShipSetV>::empty(),
    {
        Projection {
            config: Config { id: 0, slot: 0 },
            fleet: Table::new(),
            fleet_state: Table::new(),
            fleet_pos: Table::new(),
            fleet_warping: Table::new(),
            star: Table::new(),
            ship: Table::new(),
            rental_contract: Table::new(),
            fleet_ships: Table::new(),
        }
    }

    /// Advances the slot watermark.
    pub fn update_config_slot(&mut self, slot: u64)
        requires
            old(self).wf(),
        ensures
            final(self).wf(),
            final(self)@ == (ProjectionV {
                config: Config { id: old(self)@.config.id, slot },
                ..old(self)@
            }),
    {
        self.config = Config { id: self.config.id, slot };
        proof {
            assert(final(self)@ =~= (ProjectionV {
                config: Config { id: old(self)@.config.id, slot },
                ..old(self)@
            }));
        }
    }

    /// Replaces the fleet row under its identifier.
    pub fn update_fleet(&mut self, fleet: SageFleet)
        requires
            old(self).wf(),
        ensures
            final(self).wf(),
            final(self)@ == spec_update_fleet(old(self)@, fleet@),
    {
        let k = fleet.pubkey;
        self.fleet.upsert(k, fleet);
        proof {
            assert(final(self)@ =~= spec_update_fleet(old(self)@, fleet@));
        }
    }

    /// Replaces the position row under its identifier.
    pub fn update_fleet_pos(&mut self, pos: SageFleetPos)
        requires
            old(self).wf(),
        ensures
            final(self).wf(),
            final(self)@ == spec_update_fleet_pos(old(self)@, pos@),
    {
        let k = pos.pubkey;
        self.fleet_pos.upsert(k, pos);
        proof {
            assert(final(self)@ =~= spec_update_fleet_pos(old(self)@, pos@));
        }
    }

    /// Replaces the star row under its identifier.
    pub fn update_star(&mut self, star: SageStar)
        requires
            old(self).wf(),
        ensures
            final(self).wf(),
            final(self)@ == spec_update_star(old(self)@, star@),
    {
        let k = star.pubkey;
        self.star.upsert(k, star);
        proof {
            assert(final(self)@ =~= spec_update_star(old(self)@, star@));
        }
    }

    /// Replaces the ship row under its identifier.
    pub fn update_ship(&mut self, ship: SageShip)
        requires
            old(self).wf(),
        ensures
            final(self).wf(),
            final(self)@ == spec_update_ship(old(self)@, ship@),
    {
        let k = ship.pubkey;
        self.ship.upsert(k, ship);
        proof {
            assert(final(self)@ =~= spec_update_ship(old(self)@, ship@));
        }
    }

    /// Replaces the rental-contract row under its identifier.
    pub fn update_rental_contract(&mut self, c: RentalContract)
        requires
            old(self).wf(),
        ensures
            final(self).wf(),
            final(self)@ == spec_update_rental_contract(old(self)@, c@),
    {
        let k = c.pubkey;
        self.rental_contract.upsert(k, c);
        proof {
            assert(final(self)@ =~= spec_update_rental_contract(old(self)@, c@));
        }
    }

    /// Replaces the whole child set under the parent identifier, in one
    /// step: a reader never observes a partially replaced set, and a
    /// shrink in count leaves no stale children behind.
    pub fn upsert_children(&mut self, parent: AccountKey, set: FleetShipSet)
        requires
            old(self).wf(),
        ensures
            final(self).wf(),
            final(self)@ == spec_update_fleet_ships(old(self)@, parent, set@),
    {
        self.fleet_ships.upsert(parent, set);
        proof {
            assert(final(self)@ =~= spec_update_fleet_ships(old(self)@, parent, set@));
        }
    }

    /// Replaces the movement-state row and maintains the derived
    /// position and warping relations with it.
    pub fn update_fleet_state(&mut self, st: SageFleetState)
        requires
            old(self).wf(),
        ensures
            final(self).wf(),
            final(self)@ == spec_update_fleet_state(old(self)@, st),
    {
        let k = st.pubkey;
        let found = match self.fleet_state.get(k) {
            Some(row) => Some(*row),
            None => None,
        };
        match found {
            Some(existing) => {
                match existing.state {
                    FleetState::MoveWarp(_) => self.fleet_warping.remove(k),
                    FleetState::MoveSubwarp(_) => self.fleet_warping.remove(k),
                    _ => {},
                }
                match st.state {
                    FleetState::Idle(idle) => {
                        self.fleet_pos.upsert(
                            k,
                            SageFleetPos { pubkey: k, x: idle.sector_x, y: idle.sector_y },
                        );
                    },
                    FleetState::MoveWarp(mw) => {
                        self.fleet_pos.remove(k);
                        self.fleet_warping.upsert(
                            k,
                            SageFleetWarping {
                                pubkey: k,
                                from_sector_x: mw.from_sector_x,
                                from_sector_y: mw.from_sector_y,
                                to_sector_x: mw.to_sector_x,
                                to_sector_y: mw.to_sector_y,
                                slot_start: mw.warp_start as u64,
                                slot_finish: mw.warp_finish as u64,
                            },
                        );
                    },
                    FleetState::MoveSubwarp(ms) => {
                        self.fleet_pos.remove(k);
                        self.fleet_warping.upsert(
                            k,
                            SageFleetWarping {
                                pubkey: k,
                                from_sector_x: ms.from_sector_x,
                                from_sector_y: ms.from_sector_y,
                                to_sector_x: ms.to_sector_x,
                                to_sector_y: ms.to_sector_y,
                                slot_start: ms.departure_time as u64,
                                slot_finish: ms.arrival_time as u64,
                            },
                        );
                    },
                }
                self.fleet_state.upsert(k, st);
                proof {
                    assert(final(self)@ =~= spec_update_fleet_state(old(self)@, st));
                }
            },
            None => {
                self.fleet_state.upsert(k, st);
                proof {
                    assert(final(self)@ =~= spec_update_fleet_state(old(self)@, st));
                }
            },
        }
    }
}

} // verus!
