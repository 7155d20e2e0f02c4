//! The simulation world: an explicit context value owning every
//! component table and the tunable parameters — no ambient global state.
//! Entities are created bare and components attached one by one; each
//! attachment is validated, the only failure class of the core. A world
//! whose attachments all succeeded is well formed, and stays so under
//! ticking.

use vstd::prelude::*;

use crate::components::{
    valid_atmosphere, valid_automated, valid_deposit, valid_housing, valid_manned, valid_mine,
    valid_position, Atmosphere, AutomatedMine, Deposit, Deposits, Housing, Manned, Mine,
    MineableTag, Mines, Population, Position, Resource, Temperature, Velocity,
};
use crate::mining::{deposits_view, mines_view};
use crate::params::{Params, SimError};
use crate::storage::{opt_at, TagTable, Table};

verus! {

/// The mathematical model of a world: one sequence of optional component
/// values per component kind, indexed by entity id, plus the tunables.
pub ghost struct WorldView {
    pub n: nat,
    pub positions: Seq<Option<Position>>,
    pub velocities: Seq<Option<Velocity>>,
    pub populations: Seq<Option<Population>>,
    pub temperatures: Seq<Option<Temperature>>,
    pub atmospheres: Seq<Option<Atmosphere>>,
    pub deposits: Seq<Option<Seq<Deposit>>>,
    pub mines: Seq<Option<Seq<Manned>>>,
    pub mine_structs: Seq<Option<Mine>>,
    pub auto_mines: Seq<Option<AutomatedMine>>,
    pub housings: Seq<Option<Housing>>,
    pub resources: Seq<Option<Resource>>,
    pub mineable: Seq<bool>,
    pub params: Params,
}

impl WorldView {
    /// Every component the world holds is valid: the invariants of the
    /// data model, established at construction and preserved by ticking.
    pub open spec fn wf(self) -> bool {
        &&& self.params.wf()
        &&& self.positions.len() <= self.n
        &&& self.velocities.len() <= self.n
        &&& self.populations.len() <= self.n
        &&& self.temperatures.len() <= self.n
        &&& self.atmospheres.len() <= self.n
        &&& self.deposits.len() <= self.n
        &&& self.mines.len() <= self.n
        &&& self.mine_structs.len() <= self.n
        &&& self.auto_mines.len() <= self.n
        &&& self.housings.len() <= self.n
        &&& self.resources.len() <= self.n
        &&& self.mineable.len() <= self.n
        &&& forall|e: int|
            0 <= e < self.positions.len() && self.positions[e] is Some ==> valid_position(
                (#[trigger] self.positions[e])->0,
            )
        &&& forall|e: int, j: int|
            0 <= e < self.mines.len() && self.mines[e] is Some && 0 <= j
                < self.mines[e]->0.len() ==> valid_manned(
                #[trigger] self.mines[e]->0[j],
                self.params.n_resource_kinds,
            )
        &&& forall|e: int|
            0 <= e < self.mine_structs.len() && self.mine_structs[e] is Some ==> valid_mine(
                (#[trigger] self.mine_structs[e])->0,
                self.params.n_resource_kinds,
            )
        &&& forall|e: int|
            0 <= e < self.auto_mines.len() && self.auto_mines[e] is Some ==> valid_automated(
                (#[trigger] self.auto_mines[e])->0,
                self.params.n_resource_kinds,
            )
        &&& forall|e: int, j: int|
            0 <= e < self.deposits.len() && self.deposits[e] is Some && 0 <= j
                < self.deposits[e]->0.len() ==> valid_deposit(
                #[trigger] self.deposits[e]->0[j],
                self.params.n_resource_kinds,
            )
        &&& forall|e: int|
            0 <= e < self.housings.len() && self.housings[e] is Some ==> valid_housing(
                (#[trigger] self.housings[e])->0,
            )
        &&& forall|e: int|
            0 <= e < self.atmospheres.len() && self.atmospheres[e] is Some ==> valid_atmosphere(
                (#[trigger] self.atmospheres[e])->0,
            )
        &&& forall|e: int|
            0 <= e < self.resources.len() && self.resources[e] is Some ==> crate::components::valid_resource(
                (#[trigger] self.resources[e])->0,
                self.params.n_resource_kinds,
            )
        &&& forall|e: int|
            0 <= e < self.populations.len() && self.populations[e] is Some && opt_at(
                self.housings,
                e,
            ) is Some ==> ((#[trigger] self.populations[e])->0).count <= opt_at(
                self.housings,
                e,
            )->0.capacity
    }
}

/// `b` is `a` with at most the positions table changed.
pub open spec fn same_but_positions(a: WorldView, b: WorldView) -> bool {
    b == (WorldView { positions: b.positions, ..a })
}

/// `b` is `a` with at most the velocities table changed.
pub open spec fn same_but_velocities(a: WorldView, b: WorldView) -> bool {
    b == (WorldView { velocities: b.velocities, ..a })
}

/// `b` is `a` with at most the populations table changed.
pub open spec fn same_but_populations(a: WorldView, b: WorldView) -> bool {
    b == (WorldView { populations: b.populations, ..a })
}

/// `b` is `a` with at most the temperatures table changed.
pub open spec fn same_but_temperatures(a: WorldView, b: WorldView) -> bool {
    b == (WorldView { temperatures: b.temperatures, ..a })
}

/// `b` is `a` with at most the atmospheres table changed.
pub open spec fn same_but_atmospheres(a: WorldView, b: WorldView) -> bool {
    b == (WorldView { atmospheres: b.atmospheres, ..a })
}

/// `b` is `a` with at most the deposits table changed.
pub open spec fn same_but_deposits(a: WorldView, b: WorldView) -> bool {
    b == (WorldView { deposits: b.deposits, ..a })
}

/// `b` is `a` with at most the mines table changed.
pub open spec fn same_but_mines(a: WorldView, b: WorldView) -> bool {
    b == (WorldView { mines: b.mines, ..a })
}

/// `b` is `a` with at most the mine-structure table changed.
pub open spec fn same_but_mine_structs(a: WorldView, b: WorldView) -> bool {
    b == (WorldView { mine_structs: b.mine_structs, ..a })
}

/// `b` is `a` with at most the automated-mine table changed.
pub open spec fn same_but_auto_mines(a: WorldView, b: WorldView) -> bool {
    b == (WorldView { auto_mines: b.auto_mines, ..a })
}

/// `b` is `a` with at most the housings table changed.
pub open spec fn same_but_housings(a: WorldView, b: WorldView) -> bool {
    b == (WorldView { housings: b.housings, ..a })
}

/// `b` is `a` with at most the resources table changed.
pub open spec fn same_but_resources(a: WorldView, b: WorldView) -> bool {
    b == (WorldView { resources: b.resources, ..a })
}

/// `b` is `a` with at most the mineable tag table changed.
pub open spec fn same_but_mineable(a: WorldView, b: WorldView) -> bool {
    b == (WorldView { mineable: b.mineable, ..a })
}

/// The slot at `e` holds `v` and every other slot is as in `a`.
pub open spec fn table_updated<T>(a: Seq<Option<T>>, b: Seq<Option<T>>, e: int, v: T) -> bool {
    &&& opt_at(b, e) == Some(v)
    &&& forall|i: int| i != e ==> opt_at(b, i) == opt_at(a, i)
}

/// The simulation world. Component tables are in the open: systems and
/// the surrounding shell read them directly; the attach methods are the
/// validated write path of world bootstrap.
pub struct World {
    pub n_entities: usize,
    pub params: Params,
    pub positions: Table<Position>,
    pub velocities: Table<Velocity>,
    pub populations: Table<Population>,
    pub temperatures: Table<Temperature>,
    pub atmospheres: Table<Atmosphere>,
    pub deposits: Table<Deposits>,
    pub mines: Table<Mines>,
    pub mine_structs: Table<Mine>,
    pub auto_mines: Table<AutomatedMine>,
    pub housings: Table<Housing>,
    pub resources: Table<Resource>,
    pub mineable: TagTable,
}

impl View for World {
    type V = WorldView;

    open spec fn view(&self) -> WorldView {
        WorldView {
            n: self.n_entities as nat,
            positions: self.positions@,
            velocities: self.velocities@,
            populations: self.populations@,
            temperatures: self.temperatures@,
            atmospheres: self.atmospheres@,
            deposits: deposits_view(self.deposits@),
            mines: mines_view(self.mines@),
            mine_structs: self.mine_structs@,
            auto_mines: self.auto_mines@,
            housings: self.housings@,
            resources: self.resources@,
            mineable: self.mineable@,
            params: self.params,
        }
    }
}

impl World {
    /// An empty world under the given tuning. Rejected when the tuning
    /// itself is out of range.
    pub fn new(params: Params) -> (r: Result<World, SimError>)
        ensures
            r is Ok <==> params.wf(),
            r is Ok ==> {
                &&& r->Ok_0@.wf()
                &&& r->Ok_0@.n == 0
                &&& r->Ok_0@.params == params
            },
            r is Err ==> r->Err_0 == SimError::OutOfRangeValue,
    {
        let ok = 1 <= params.n_resource_kinds && params.n_resource_kinds <= 128
            && params.growth_div >= 100 && 1 <= params.temp_band
            && params.temp_band <= 1_000_000_000 && -1_000_000_000 <= params.temp_opt
            && params.temp_opt <= 1_000_000_000 && 1 <= params.oxy_opt && params.oxy_opt <= 100
            && params.co2_pop_div >= 1 && params.co2_byp_div >= 1 && params.pressure_scale
            <= 1_000_000_000_000 && params.build_cost >= 1;
        if !ok {
            return Err(SimError::OutOfRangeValue);
        }
        Ok(
            World {
                n_entities: 0,
                params,
                positions: Table::new(),
                velocities: Table::new(),
                populations: Table::new(),
                temperatures: Table::new(),
                atmospheres: Table::new(),
                deposits: Table::new(),
                mines: Table::new(),
                mine_structs: Table::new(),
                auto_mines: Table::new(),
                housings: Table::new(),
                resources: Table::new(),
                mineable: TagTable::new(),
            },
        )
    }

    /// Create a bare entity and return its id.
    pub fn create_entity(&mut self) -> (e: usize)
        requires
            old(self)@.wf(),
            old(self)@.n < usize::MAX,
        ensures
            e == old(self)@.n,
            final(self)@ == (WorldView { n: old(self)@.n + 1, ..old(self)@ }),
            final(self)@.wf(),
    {
        let e = self.n_entities;
        self.n_entities = self.n_entities + 1;
        e
    }

    /// How many entities exist.
    pub fn entity_count(&self) -> (n: usize)
        ensures
            n == self@.n,
    {
        self.n_entities
    }

    /// Attach natural deposits to entity `e`. Rejected when a deposit
    /// names an unknown resource kind, or has a negative difficulty.
    pub fn attach_deposits(&mut self, e: usize, d: Deposits) -> (r: Result<(), SimError>)
        requires
            old(self)@.wf(),
            e < old(self)@.n,
        ensures
            r is Ok <==> forall|j: int|
                0 <= j < d.natural@.len() ==> valid_deposit(
                    #[trigger] d.natural@[j],
                    old(self)@.params.n_resource_kinds,
                ),
            r == Err::<(), SimError>(SimError::InvalidComponentKind) <==> exists|j: int|
                0 <= j < d.natural@.len() && !crate::components::known_kind(
                    (#[trigger] d.natural@[j]).deposit_type,
                    old(self)@.params.n_resource_kinds,
                ),
            r is Err ==> final(self)@ == old(self)@,
            r is Ok ==> same_but_deposits(old(self)@, final(self)@) && table_updated(
                old(self)@.deposits,
                final(self)@.deposits,
                e as int,
                d.natural@,
            ),
            final(self)@.wf(),
    {
        let nk = self.params.n_resource_kinds;
        let mut kinds_ok = true;
        let mut range_ok = true;
        let m: usize = d.natural.len();
        let mut j: usize = 0;
        #[verifier::loop_isolation(false)]
        while j < m
            invariant
                j <= m,
                m == d.natural@.len(),
                kinds_ok <==> forall|i: int|
                    0 <= i < j ==> crate::components::known_kind(
                        (#[trigger] d.natural@[i]).deposit_type,
                        nk,
                    ),
                range_ok <==> forall|i: int|
                    0 <= i < j ==> (#[trigger] d.natural@[i]).difficulty >= 0,
            decreases m - j,
        {
            let dep: Deposit = d.natural[j];
            if !(dep.deposit_type >= 0 && (dep.deposit_type as u64) < nk) {
                kinds_ok = false;
            }
            if dep.difficulty < 0 {
                range_ok = false;
            }
            j = j + 1;
        }
        if !kinds_ok {
            return Err(SimError::InvalidComponentKind);
        }
        if !range_ok {
            return Err(SimError::OutOfRangeValue);
        }
        let ghost pre = self.deposits@;
        self.deposits.set(e, d);
        proof {
            assert forall|i: int| i != e ==> opt_at(deposits_view(self.deposits@), i) == opt_at(
                deposits_view(pre),
                i,
            ) by {}
            assert(opt_at(deposits_view(self.deposits@), e as int) == Some(d.natural@));
            let dv = deposits_view(self.deposits@);
            assert forall|i: int, jj: int|
                0 <= i < dv.len() && dv[i] is Some && 0 <= jj < dv[i]->0.len() implies valid_deposit(
                #[trigger] dv[i]->0[jj],
                self.params.n_resource_kinds,
            ) by {
                if i == e {
                    assert(dv[i]->0 == d.natural@);
                } else {
                    assert(opt_at(dv, i) == opt_at(deposits_view(pre), i));
                    assert(dv[i] == deposits_view(pre)[i]);
                }
            }
        }
        Ok(())
    }

    /// Attach mining crews to entity `e`. Rejected when a crew names an
    /// unknown resource kind, or buffers more than its bound.
    pub fn attach_mines(&mut self, e: usize, m: Mines) -> (r: Result<(), SimError>)
        requires
            old(self)@.wf(),
            e < old(self)@.n,
        ensures
            r is Ok <==> forall|j: int|
                0 <= j < m.manned@.len() ==> valid_manned(
                    #[trigger] m.manned@[j],
                    old(self)@.params.n_resource_kinds,
                ),
            r == Err::<(), SimError>(SimError::InvalidComponentKind) <==> exists|j: int|
                0 <= j < m.manned@.len() && !(crate::components::known_kind(
                    (#[trigger] m.manned@[j]).input_type,
                    old(self)@.params.n_resource_kinds,
                ) && crate::components::known_kind(
                    m.manned@[j].output_type,
                    old(self)@.params.n_resource_kinds,
                )),
            r is Err ==> final(self)@ == old(self)@,
            r is Ok ==> same_but_mines(old(self)@, final(self)@) && table_updated(
                old(self)@.mines,
                final(self)@.mines,
                e as int,
                m.manned@,
            ),
            final(self)@.wf(),
    {
        let nk = self.params.n_resource_kinds;
        let mut kinds_ok = true;
        let mut range_ok = true;
        let len: usize = m.manned.len();
        let mut j: usize = 0;
        #[verifier::loop_isolation(false)]
        while j < len
            invariant
                j <= len,
                len == m.manned@.len(),
                kinds_ok <==> forall|i: int|
                    0 <= i < j ==> (crate::components::known_kind(
                        (#[trigger] m.manned@[i]).input_type,
                        nk,
                    ) && crate::components::known_kind(m.manned@[i].output_type, nk)),
                range_ok <==> forall|i: int|
                    0 <= i < j ==> (#[trigger] m.manned@[i]).capacity <= m.manned@[i].capacity_max,
            decreases len - j,
        {
            let c: Manned = m.manned[j];
            if !(c.input_type >= 0 && (c.input_type as u64) < nk && c.output_type >= 0
                && (c.output_type as u64) < nk) {
                kinds_ok = false;
            }
            if c.capacity > c.capacity_max {
                range_ok = false;
            }
            j = j + 1;
        }
        if !kinds_ok {
            return Err(SimError::InvalidComponentKind);
        }
        if !range_ok {
            return Err(SimError::OutOfRangeValue);
        }
        let ghost pre = self.mines@;
        self.mines.set(e, m);
        proof {
            assert forall|i: int| i != e ==> opt_at(mines_view(self.mines@), i) == opt_at(
                mines_view(pre),
                i,
            ) by {}
            assert(opt_at(mines_view(self.mines@), e as int) == Some(m.manned@));
            let mv = mines_view(self.mines@);
            assert forall|i: int, jj: int|
                0 <= i < mv.len() && mv[i] is Some && 0 <= jj < mv[i]->0.len() implies valid_manned(
                #[trigger] mv[i]->0[jj],
                self.params.n_resource_kinds,
            ) by {
                if i == e {
                    assert(mv[i]->0 == m.manned@);
                } else {
                    assert(opt_at(mv, i) == opt_at(mines_view(pre), i));
                    assert(mv[i] == mines_view(pre)[i]);
                }
            }
        }
        Ok(())
    }

    /// Attach the crewed mine structure of entity `e`. Rejected when it
    /// names an unknown resource kind, or buffers more than its bound.
    pub fn attach_mine(&mut self, e: usize, m: Mine) -> (r: Result<(), SimError>)
        requires
            old(self)@.wf(),
            e < old(self)@.n,
        ensures
            r is Ok <==> valid_mine(m, old(self)@.params.n_resource_kinds),
            r == Err::<(), SimError>(SimError::InvalidComponentKind) <==> !(
            crate::components::known_kind(m.input_type, old(self)@.params.n_resource_kinds)
                && crate::components::known_kind(m.output_type, old(self)@.params.n_resource_kinds)),
            r is Err ==> final(self)@ == old(self)@,
            r is Ok ==> same_but_mine_structs(old(self)@, final(self)@) && table_updated(
                old(self)@.mine_structs,
                final(self)@.mine_structs,
                e as int,
                m,
            ),
            final(self)@.wf(),
    {
        let nk = self.params.n_resource_kinds;
        if !(m.input_type >= 0 && (m.input_type as u64) < nk && m.output_type >= 0 && (m.output_type
            as u64) < nk) {
            return Err(SimError::InvalidComponentKind);
        }
        if m.capacity > m.capacity_max {
            return Err(SimError::OutOfRangeValue);
        }
        self.mine_structs.set(e, m);
        Ok(())
    }

    /// Attach the automated mine of entity `e`. Rejected when it names
    /// an unknown resource kind.
    pub fn attach_automated_mine(&mut self, e: usize, m: AutomatedMine) -> (r: Result<
        (),
        SimError,
    >)
        requires
            old(self)@.wf(),
            e < old(self)@.n,
        ensures
            r is Ok <==> valid_automated(m, old(self)@.params.n_resource_kinds),
            r is Err ==> r == Err::<(), SimError>(SimError::InvalidComponentKind) && final(self)@
                == old(self)@,
            r is Ok ==> same_but_auto_mines(old(self)@, final(self)@) && table_updated(
                old(self)@.auto_mines,
                final(self)@.auto_mines,
                e as int,
                m,
            ),
            final(self)@.wf(),
    {
        let nk = self.params.n_resource_kinds;
        if !(m.input_type >= 0 && (m.input_type as u64) < nk && m.output_type >= 0 && (m.output_type
            as u64) < nk) {
            return Err(SimError::InvalidComponentKind);
        }
        self.auto_mines.set(e, m);
        Ok(())
    }

    /// Attach the resource stock of entity `e`. Rejected when it names
    /// an unknown resource kind, or has a negative difficulty.
    pub fn attach_resource(&mut self, e: usize, res: Resource) -> (r: Result<(), SimError>)
        requires
            old(self)@.wf(),
            e < old(self)@.n,
        ensures
            r is Ok <==> crate::components::valid_resource(
                res,
                old(self)@.params.n_resource_kinds,
            ),
            r == Err::<(), SimError>(SimError::InvalidComponentKind) <==> !crate::components::known_kind(
                res.resource_type,
                old(self)@.params.n_resource_kinds,
            ),
            r is Err ==> final(self)@ == old(self)@,
            r is Ok ==> same_but_resources(old(self)@, final(self)@) && table_updated(
                old(self)@.resources,
                final(self)@.resources,
                e as int,
                res,
            ),
            final(self)@.wf(),
    {
        let nk = self.params.n_resource_kinds;
        if !(res.resource_type >= 0 && (res.resource_type as u64) < nk) {
            return Err(SimError::InvalidComponentKind);
        }
        if res.difficulty < 0 {
            return Err(SimError::OutOfRangeValue);
        }
        self.resources.set(e, res);
        Ok(())
    }

    /// Attach the housing of entity `e`. Rejected when the built
    /// capacity exceeds its ceiling, the quality is over 100, or a
    /// population already present would not fit.
    pub fn attach_housing(&mut self, e: usize, h: Housing) -> (r: Result<(), SimError>)
        requires
            old(self)@.wf(),
            e < old(self)@.n,
        ensures
            r is Ok <==> (valid_housing(h) && (opt_at(old(self)@.populations, e as int) is Some
                ==> opt_at(old(self)@.populations, e as int)->0.count <= h.capacity)),
            r is Err ==> r == Err::<(), SimError>(SimError::OutOfRangeValue) && final(self)@ == old(
                self,
            )@,
            r is Ok ==> same_but_housings(old(self)@, final(self)@) && table_updated(
                old(self)@.housings,
                final(self)@.housings,
                e as int,
                h,
            ),
            final(self)@.wf(),
    {
        if h.capacity > h.capacity_max || h.quality > 100 {
            return Err(SimError::OutOfRangeValue);
        }
        let fits = match self.populations.get(e) {
            Some(q) => (q.count as u64) <= h.capacity,
            None => true,
        };
        if !fits {
            return Err(SimError::OutOfRangeValue);
        }
        self.housings.set(e, h);
        Ok(())
    }

    /// Attach the population of entity `e`. Rejected when a housing
    /// already present cannot hold the count.
    pub fn attach_population(&mut self, e: usize, pop: Population) -> (r: Result<(), SimError>)
        requires
            old(self)@.wf(),
            e < old(self)@.n,
        ensures
            r is Ok <==> (opt_at(old(self)@.housings, e as int) is Some ==> pop.count <= opt_at(
                old(self)@.housings,
                e as int,
            )->0.capacity),
            r is Err ==> r == Err::<(), SimError>(SimError::OutOfRangeValue) && final(self)@ == old(
                self,
            )@,
            r is Ok ==> same_but_populations(old(self)@, final(self)@) && table_updated(
                old(self)@.populations,
                final(self)@.populations,
                e as int,
                pop,
            ),
            final(self)@.wf(),
    {
        let fits = match self.housings.get(e) {
            Some(h) => (pop.count as u64) <= h.capacity,
            None => true,
        };
        if !fits {
            return Err(SimError::OutOfRangeValue);
        }
        self.populations.set(e, pop);
        Ok(())
    }

    /// Attach the orbital state of entity `e`. Rejected when the angle
    /// is not wrapped into one turn.
    pub fn attach_position(&mut self, e: usize, pos: Position) -> (r: Result<(), SimError>)
        requires
            old(self)@.wf(),
            e < old(self)@.n,
        ensures
            r is Ok <==> valid_position(pos),
            r is Err ==> r == Err::<(), SimError>(SimError::OutOfRangeValue) && final(self)@ == old(
                self,
            )@,
            r is Ok ==> same_but_positions(old(self)@, final(self)@) && table_updated(
                old(self)@.positions,
                final(self)@.positions,
                e as int,
                pos,
            ),
            final(self)@.wf(),
    {
        if pos.angle >= crate::components::FULL_TURN {
            return Err(SimError::OutOfRangeValue);
        }
        self.positions.set(e, pos);
        Ok(())
    }

    /// Attach the angular rate of entity `e`. Any rate is a valid body;
    /// zero is simply stationary.
    pub fn attach_velocity(&mut self, e: usize, v: Velocity)
        requires
            old(self)@.wf(),
            e < old(self)@.n,
        ensures
            same_but_velocities(old(self)@, final(self)@),
            table_updated(old(self)@.velocities, final(self)@.velocities, e as int, v),
            final(self)@.wf(),
    {
        self.velocities.set(e, v);
    }

    /// Attach the surface temperature of entity `e`.
    pub fn attach_temperature(&mut self, e: usize, t: Temperature)
        requires
            old(self)@.wf(),
            e < old(self)@.n,
        ensures
            same_but_temperatures(old(self)@, final(self)@),
            table_updated(old(self)@.temperatures, final(self)@.temperatures, e as int, t),
            final(self)@.wf(),
    {
        self.temperatures.set(e, t);
    }

    /// Attach the atmosphere of entity `e`. Rejected when the gas
    /// shares leave their ranges or sum over 100.
    pub fn attach_atmosphere(&mut self, e: usize, a: Atmosphere) -> (r: Result<(), SimError>)
        requires
            old(self)@.wf(),
            e < old(self)@.n,
        ensures
            r is Ok <==> valid_atmosphere(a),
            r is Err ==> r == Err::<(), SimError>(SimError::OutOfRangeValue) && final(self)@ == old(
                self,
            )@,
            r is Ok ==> same_but_atmospheres(old(self)@, final(self)@) && table_updated(
                old(self)@.atmospheres,
                final(self)@.atmospheres,
                e as int,
                a,
            ),
            final(self)@.wf(),
    {
        let c = a.consistency;
        if !(c.oxygen <= 100 && c.nitrogen <= 100 && c.co2 <= 100 && c.oxygen + c.nitrogen + c.co2
            <= 100) {
            return Err(SimError::OutOfRangeValue);
        }
        self.atmospheres.set(e, a);
        Ok(())
    }

    /// Mark entity `e` as mineable ground.
    pub fn attach_mineable(&mut self, e: usize, _tag: MineableTag)
        requires
            old(self)@.wf(),
            e < old(self)@.n,
        ensures
            same_but_mineable(old(self)@, final(self)@),
            final(self)@.mineable[e as int],
            final(self)@.wf(),
    {
        self.mineable.insert(e);
    }

    /// Whether entity `e` is marked mineable.
    pub fn is_mineable(&self, e: usize) -> (r: bool)
        ensures
            r == (e < self@.mineable.len() && self@.mineable[e as int]),
    {
        self.mineable.has(e)
    }

    /// Read the orbital state of entity `e`.
    pub fn position(&self, e: usize) -> (r: Option<Position>)
        ensures
            r == opt_at(self@.positions, e as int),
    {
        match self.positions.get(e) {
            Some(p) => Some(*p),
            None => None,
        }
    }

    /// Read the angular rate of entity `e`.
    pub fn velocity(&self, e: usize) -> (r: Option<Velocity>)
        ensures
            r == opt_at(self@.velocities, e as int),
    {
        match self.velocities.get(e) {
            Some(v) => Some(*v),
            None => None,
        }
    }

    /// Read the population of entity `e`.
    pub fn population(&self, e: usize) -> (r: Option<Population>)
        ensures
            r == opt_at(self@.populations, e as int),
    {
        match self.populations.get(e) {
            Some(q) => Some(*q),
            None => None,
        }
    }

    /// Read the surface temperature of entity `e`.
    pub fn temperature(&self, e: usize) -> (r: Option<Temperature>)
        ensures
            r == opt_at(self@.temperatures, e as int),
    {
        match self.temperatures.get(e) {
            Some(t) => Some(*t),
            None => None,
        }
    }

    /// Read the atmosphere of entity `e`.
    pub fn atmosphere(&self, e: usize) -> (r: Option<Atmosphere>)
        ensures
            r == opt_at(self@.atmospheres, e as int),
    {
        match self.atmospheres.get(e) {
            Some(a) => Some(*a),
            None => None,
        }
    }

    /// Read the resource stock of entity `e`.
    pub fn resource(&self, e: usize) -> (r: Option<Resource>)
        ensures
            r == opt_at(self@.resources, e as int),
    {
        match self.resources.get(e) {
            Some(res) => Some(*res),
            None => None,
        }
    }

    /// Read the housing of entity `e`.
    pub fn housing(&self, e: usize) -> (r: Option<Housing>)
        ensures
            r == opt_at(self@.housings, e as int),
    {
        match self.housings.get(e) {
            Some(h) => Some(*h),
            None => None,
        }
    }

    /// Read the crewed mine structure of entity `e`.
    pub fn mine_structure(&self, e: usize) -> (r: Option<Mine>)
        ensures
            r == opt_at(self@.mine_structs, e as int),
    {
        match self.mine_structs.get(e) {
            Some(m) => Some(*m),
            None => None,
        }
    }

    /// Read the automated mine of entity `e`.
    pub fn automated_mine(&self, e: usize) -> (r: Option<AutomatedMine>)
        ensures
            r == opt_at(self@.auto_mines, e as int),
    {
        match self.auto_mines.get(e) {
            Some(m) => Some(*m),
            None => None,
        }
    }

    /// Borrow the deposits of entity `e`.
    pub fn deposits_of(&self, e: usize) -> (r: Option<&Deposits>)
        ensures
            match r {
                Some(d) => opt_at(self@.deposits, e as int) == Some(d.natural@),
                None => opt_at(self@.deposits, e as int) is None,
            },
    {
        self.deposits.get(e)
    }

    /// Borrow the mining crews of entity `e`.
    pub fn mines_of(&self, e: usize) -> (r: Option<&Mines>)
        ensures
            match r {
                Some(m) => opt_at(self@.mines, e as int) == Some(m.manned@),
                None => opt_at(self@.mines, e as int) is None,
            },
    {
        self.mines.get(e)
    }
}

} // verus!
