//! Tunable parameters supplied at world construction, and the
//! construction-time error type. Ticking itself never fails: the only
//! failure class is validation when a world or an entity is built.

use vstd::prelude::*;

verus! {

/// Resource-type id of boronite in the sample configuration.
pub const BORONITE: i8 = 1;

/// Construction-time validation failures. Steady-state ticking has no
/// error path: per-tick operations saturate or clamp instead.
#[derive(Clone, Copy, Debug, PartialEq, Eq, Structural)]
pub enum SimError {
    /// A component names an unknown resource kind.
    InvalidComponentKind,
    /// A component value lies outside its documented range.
    OutOfRangeValue,
}

/// The tunable curves and constants of the simulation, fixed when the
/// world is constructed. The defaults in [`Params::defaults`] are one
/// reasonable choice; every curve here is a configuration point, not a
/// hard rule of the model.
#[derive(Clone, Copy, Debug, PartialEq, Eq, Structural)]
pub struct Params {
    /// Resource-kind ids `0..n_resource_kinds` are known; at most 128 so
    /// every known kind fits an `i8` id.
    pub n_resource_kinds: u64,
    /// `k` in the extraction-rate penalty `efficiency * dt / (1 + difficulty * k)`.
    pub difficulty_scale: u64,
    /// Divisor of the population step `gap * quality / growth_div`;
    /// at least 100 so a step never overshoots the target.
    pub growth_div: u64,
    /// Centre of the habitable temperature band, in degrees.
    pub temp_opt: i64,
    /// Half-width of the habitable temperature band, in degrees.
    pub temp_band: i64,
    /// Oxygen share (percent) at which growth suitability saturates.
    pub oxy_opt: u64,
    /// Population per unit of per-tick co2 emission.
    pub co2_pop_div: u64,
    /// Mined units per unit of per-tick co2 emission.
    pub co2_byp_div: u64,
    /// Pressure equilibrium is `gas_sum * pressure_scale / 100`.
    pub pressure_scale: u64,
    /// Largest pressure change per tick toward the equilibrium.
    pub pressure_step: u64,
    /// Resource units consumed per unit of housing construction.
    pub build_cost: u64,
}

impl Params {
    /// Ranges under which every per-tick computation is well defined.
    pub open spec fn wf(self) -> bool {
        &&& 1 <= self.n_resource_kinds <= 128
        &&& self.growth_div >= 100
        &&& 1 <= self.temp_band <= 1_000_000_000
        &&& -1_000_000_000 <= self.temp_opt <= 1_000_000_000
        &&& 1 <= self.oxy_opt <= 100
        &&& self.co2_pop_div >= 1
        &&& self.co2_byp_div >= 1
        &&& self.pressure_scale <= 1_000_000_000_000
        &&& self.build_cost >= 1
    }

    /// The default tuning.
    pub open spec fn default_spec() -> Params {
        Params {
            n_resource_kinds: 16,
            difficulty_scale: 1,
            growth_div: 200,
            temp_opt: 20,
            temp_band: 100,
            oxy_opt: 21,
            co2_pop_div: 1000,
            co2_byp_div: 10,
            pressure_scale: 100,
            pressure_step: 1,
            build_cost: 10,
        }
    }

    /// A reasonable default tuning: sixteen resource kinds, a habitable
    /// band of 100 degrees around 20 degrees, suitability saturating at
    /// 21 percent oxygen.
    pub fn defaults() -> (p: Params)
        ensures
            p == Params::default_spec(),
            p.wf(),
    {
        Params {
            n_resource_kinds: 16,
            difficulty_scale: 1,
            growth_div: 200,
            temp_opt: 20,
            temp_band: 100,
            oxy_opt: 21,
            co2_pop_div: 1000,
            co2_byp_div: 10,
            pressure_scale: 100,
            pressure_step: 1,
            build_cost: 10,
        }
    }
}

} // verus!
