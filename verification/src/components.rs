//! The component types that attach to entities, and what it means for each
//! to be well formed.
//!
//! Quantities are fixed-point integers: resource amounts, efficiencies and
//! buffer capacities in whole resource units; angles in microradians below
//! one full turn; temperatures in whole degrees. Resource kinds are small
//! non-negative ids; which ids exist is a tunable of the world.

use vstd::prelude::*;

verus! {

/// Microradians in one full turn (2 * pi * 1_000_000, rounded down).
/// A stored angle is always in `[0, FULL_TURN)`.
pub const FULL_TURN: u64 = 6_283_185;

/// Presence-only marker: the entity carries mineable ground.
#[derive(Clone, Copy, Debug)]
pub struct MineableTag;

/// Inhabitants of a planet.
#[derive(Clone, Copy, Debug, PartialEq, Eq, Structural)]
pub struct Population {
    pub count: u32,
}

/// Surface temperature in whole degrees.
#[derive(Clone, Copy, Debug, PartialEq, Eq, Structural)]
pub struct Temperature {
    pub value: i64,
}

/// Gas shares of an atmosphere, each in percent of the whole.
#[derive(Clone, Copy, Debug, PartialEq, Eq, Structural)]
pub struct Consistency {
    pub oxygen: u64,
    pub nitrogen: u64,
    pub co2: u64,
}

/// Atmospheric state of a planet.
#[derive(Clone, Copy, Debug, PartialEq, Eq, Structural)]
pub struct Atmosphere {
    pub consistency: Consistency,
    pub pressure: u64,
}

/// A finite, typed quantity of extractable raw resource. An exhausted
/// deposit (`amount == 0`) is skipped by mining, never removed.
#[derive(Clone, Copy, Debug, PartialEq, Eq, Structural)]
pub struct Deposit {
    pub deposit_type: i8,
    pub amount: u64,
    pub difficulty: i8,
}

/// The natural deposits of one entity, in prospecting order.
#[derive(Debug)]
pub struct Deposits {
    pub natural: Vec<Deposit>,
}

/// One crewed mining team: converts `input_type` deposits into
/// `output_type` stock at rate `efficiency`, buffering into `capacity`
/// bounded by `capacity_max`.
#[derive(Clone, Copy, Debug, PartialEq, Eq, Structural)]
pub struct Manned {
    pub efficiency: u64,
    pub input_type: i8,
    pub output_type: i8,
    pub capacity: u64,
    pub capacity_max: u64,
}

/// The mining crews attached to one entity.
#[derive(Debug)]
pub struct Mines {
    pub manned: Vec<Manned>,
}

/// A single crewed mine structure; it works only while at least one
/// `Manned` crew is present on the same entity.
#[derive(Clone, Copy, Debug, PartialEq, Eq, Structural)]
pub struct Mine {
    pub efficiency: u64,
    pub input_type: i8,
    pub output_type: i8,
    pub capacity: u64,
    pub capacity_max: u64,
}

/// An unmanned mine: no crew requirement and no stock buffer; output goes
/// straight to the entity's resource stock.
#[derive(Clone, Copy, Debug, PartialEq, Eq, Structural)]
pub struct AutomatedMine {
    pub efficiency: u64,
    pub input_type: i8,
    pub output_type: i8,
}

/// Living space: `capacity` is the built room (grows toward
/// `capacity_max` as construction progresses), `quality` a 0..=100 scalar
/// scaling both the population target and the growth rate.
#[derive(Clone, Copy, Debug, PartialEq, Eq, Structural)]
pub struct Housing {
    pub capacity: u64,
    pub capacity_max: u64,
    pub quality: u64,
}

/// Stockpiled resource held by the owning entity.
#[derive(Clone, Copy, Debug, PartialEq, Eq, Structural)]
pub struct Resource {
    pub resource_type: i8,
    pub amount: u64,
    pub difficulty: i8,
}

/// Authoritative orbital state in polar form; Cartesian coordinates are
/// derived by the rendering shell from `r` and `angle`.
#[derive(Clone, Copy, Debug, PartialEq, Eq, Structural)]
pub struct Position {
    pub r: u64,
    pub angle: u64,
}

/// Angular rate in microradians per time unit.
#[derive(Clone, Copy, Debug, PartialEq, Eq, Structural)]
pub struct Velocity {
    pub angle: u64,
}

/// A resource-kind id is known when it is a non-negative id below the
/// world's configured number of kinds.
pub open spec fn known_kind(k: i8, n_kinds: u64) -> bool {
    0 <= k as int && (k as int) < n_kinds as int
}

pub open spec fn valid_deposit(d: Deposit, n_kinds: u64) -> bool {
    &&& known_kind(d.deposit_type, n_kinds)
    &&& d.difficulty >= 0
}

pub open spec fn valid_manned(m: Manned, n_kinds: u64) -> bool {
    &&& known_kind(m.input_type, n_kinds)
    &&& known_kind(m.output_type, n_kinds)
    &&& m.capacity <= m.capacity_max
}

pub open spec fn valid_mine(m: Mine, n_kinds: u64) -> bool {
    &&& known_kind(m.input_type, n_kinds)
    &&& known_kind(m.output_type, n_kinds)
    &&& m.capacity <= m.capacity_max
}

pub open spec fn valid_automated(m: AutomatedMine, n_kinds: u64) -> bool {
    &&& known_kind(m.input_type, n_kinds)
    &&& known_kind(m.output_type, n_kinds)
}

pub open spec fn valid_housing(h: Housing) -> bool {
    &&& h.capacity <= h.capacity_max
    &&& h.quality <= 100
}

/// Gas shares each stay within 0..=100 and sum to at most 100.
pub open spec fn valid_atmosphere(a: Atmosphere) -> bool {
    &&& a.consistency.oxygen <= 100
    &&& a.consistency.nitrogen <= 100
    &&& a.consistency.co2 <= 100
    &&& a.consistency.oxygen + a.consistency.nitrogen + a.consistency.co2 <= 100
}

pub open spec fn valid_resource(r: Resource, n_kinds: u64) -> bool {
    &&& known_kind(r.resource_type, n_kinds)
    &&& r.difficulty >= 0
}

pub open spec fn valid_position(p: Position) -> bool {
    p.angle < FULL_TURN
}

} // verus!
