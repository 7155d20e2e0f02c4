//! Planetary atmosphere evolution: population and mining byproducts shift
//! oxygen into co2 (the shares trade one for one, so their sum is
//! invariant), and pressure drifts a bounded step per tick toward an
//! equilibrium set by the total gas share.

use vstd::prelude::*;

use crate::components::{valid_atmosphere, Atmosphere, Consistency, Population};
use crate::num::{min2, min3, sat_add, sat_add_spec, min_u64};
use crate::params::Params;
use crate::storage::{opt_at, Table};

verus! {

/// The population count of an entity, zero when uninhabited.
pub open spec fn pop_count_at(pv: Seq<Option<Population>>, e: int) -> int {
    match opt_at(pv, e) {
        Some(q) => q.count as int,
        None => 0,
    }
}

/// One entity's atmosphere after one tick, given its population and the
/// units mined on it this tick.
pub open spec fn atmos_entity_after(a: Atmosphere, pop: int, byp: int, p: Params) -> Atmosphere {
    let raw = sat_add_spec(pop / p.co2_pop_div as int, byp / p.co2_byp_div as int);
    let d = min3(raw, a.consistency.oxygen as int, 100 - a.consistency.co2);
    let oxygen = a.consistency.oxygen - d;
    let co2 = a.consistency.co2 + d;
    let gas_sum = oxygen + a.consistency.nitrogen + co2;
    let eq = gas_sum * p.pressure_scale as int / 100;
    let pressure = if a.pressure < eq {
        a.pressure + min2(p.pressure_step as int, eq - a.pressure)
    } else {
        a.pressure - min2(p.pressure_step as int, a.pressure - eq)
    };
    Atmosphere {
        consistency: Consistency {
            oxygen: oxygen as u64,
            nitrogen: a.consistency.nitrogen,
            co2: co2 as u64,
        },
        pressure: pressure as u64,
    }
}

/// The atmosphere table after one tick.
pub open spec fn atmos_after(
    av: Seq<Option<Atmosphere>>,
    pv: Seq<Option<Population>>,
    byp: Seq<u64>,
    p: Params,
) -> Seq<Option<Atmosphere>> {
    Seq::new(
        av.len(),
        |e: int|
            match av[e] {
                Some(a) => Some(atmos_entity_after(a, pop_count_at(pv, e), byp[e] as int, p)),
                None => None,
            },
    )
}

/// Advance one atmosphere by one tick.
pub fn step_atmosphere(a: Atmosphere, pop: u32, byp: u64, p: &Params) -> (b: Atmosphere)
    requires
        valid_atmosphere(a),
        p.wf(),
    ensures
        b == atmos_entity_after(a, pop as int, byp as int, *p),
        valid_atmosphere(b),
        b.consistency.oxygen + b.consistency.nitrogen + b.consistency.co2 == a.consistency.oxygen
            + a.consistency.nitrogen + a.consistency.co2,
{
    let raw: u64 = sat_add((pop as u64) / p.co2_pop_div, byp / p.co2_byp_div);
    let d: u64 = min_u64(raw, min_u64(a.consistency.oxygen, 100 - a.consistency.co2));
    let oxygen: u64 = a.consistency.oxygen - d;
    let co2: u64 = a.consistency.co2 + d;
    let gas_sum: u64 = oxygen + a.consistency.nitrogen + co2;
    proof {
        assert(gas_sum as int * p.pressure_scale as int <= 100 * 1_000_000_000_000int)
            by (nonlinear_arith)
            requires
                gas_sum <= 100,
                p.pressure_scale <= 1_000_000_000_000,
        ;
    }
    let eq: u64 = gas_sum * p.pressure_scale / 100;
    let pressure: u64 = if a.pressure < eq {
        a.pressure + min_u64(p.pressure_step, eq - a.pressure)
    } else {
        a.pressure - min_u64(p.pressure_step, a.pressure - eq)
    };
    Atmosphere {
        consistency: Consistency { oxygen, nitrogen: a.consistency.nitrogen, co2 },
        pressure,
    }
}

/// The Planetary Atmosphere System: one pass over the atmosphere table.
#[verifier::loop_isolation(false)]
pub fn atmosphere_system(
    atmos: &mut Table<Atmosphere>,
    pops: &Table<Population>,
    byp: &Vec<u64>,
    p: &Params,
)
    requires
        old(atmos)@.len() <= byp@.len(),
        p.wf(),
        forall|e: int|
            0 <= e < old(atmos)@.len() && old(atmos)@[e] is Some ==> valid_atmosphere(
                (#[trigger] old(atmos)@[e])->0,
            ),
    ensures
        final(atmos)@ == atmos_after(old(atmos)@, pops@, byp@, *p),
        final(atmos)@.len() == old(atmos)@.len(),
        forall|e: int|
            0 <= e < final(atmos)@.len() && final(atmos)@[e] is Some ==> valid_atmosphere(
                (#[trigger] final(atmos)@[e])->0,
            ),
        forall|e: int|
            0 <= e < old(atmos)@.len() ==> ((#[trigger] final(atmos)@[e]) is Some <==> old(
                atmos,
            )@[e] is Some),
{
    let ghost av0 = old(atmos)@;
    let n: usize = atmos.len();
    let mut e: usize = 0;
    while e < n
        invariant
            e <= n,
            atmos@.len() == n == av0.len(),
            forall|i: int| e <= i < n ==> atmos@[i] == av0[i],
            forall|i: int| 0 <= i < e ==> #[trigger] atmos@[i] == atmos_after(av0, pops@, byp@, *p)[i],
            forall|i: int|
                0 <= i < n ==> ((#[trigger] atmos@[i]) is Some <==> av0[i] is Some),
            forall|i: int|
                0 <= i < n && atmos@[i] is Some ==> valid_atmosphere((#[trigger] atmos@[i])->0),
        decreases n - e,
    {
        let a_opt: Option<&Atmosphere> = atmos.get(e);
        match a_opt {
            Some(a) => {
                let a: Atmosphere = *a;
                let pop: u32 = match pops.get(e) {
                    Some(q) => q.count,
                    None => 0,
                };
                let b = step_atmosphere(a, pop, byp[e], p);
                atmos.set(e, b);
            },
            None => {},
        }
        e = e + 1;
    }
    proof {
        assert(atmos@ =~= atmos_after(av0, pops@, byp@, *p));
    }
}

} // verus!
