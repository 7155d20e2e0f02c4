//! Planetary growth: derives a suitability multiplier from temperature
//! and oxygen, fed into the housing system's population target. The
//! multiplier is a percentage: 100 is fully hospitable, 0 is barren. A
//! missing component contributes no penalty.

use vstd::prelude::*;

use crate::components::{valid_atmosphere, Atmosphere, Temperature};
use crate::num::min2;
use crate::params::Params;
use crate::storage::{opt_at, Table};

verus! {

/// Temperature part of the suitability: a symmetric ramp, 100 at the
/// habitable optimum, falling linearly to 0 at the edge of the band.
pub open spec fn temp_suit(t: Option<Temperature>, p: Params) -> int {
    match t {
        Some(tv) => if tv.value < p.temp_opt - p.temp_band || tv.value > p.temp_opt + p.temp_band {
            0
        } else {
            let dist = if tv.value >= p.temp_opt {
                tv.value - p.temp_opt
            } else {
                p.temp_opt - tv.value
            };
            100 - dist * 100 / p.temp_band as int
        },
        None => 100,
    }
}

/// Oxygen part of the suitability: linear in the oxygen share up to the
/// configured optimum, saturated at 100 beyond it.
pub open spec fn oxy_suit(a: Option<Atmosphere>, p: Params) -> int {
    match a {
        Some(at) => min2(100, at.consistency.oxygen * 100 / p.oxy_opt as int),
        None => 100,
    }
}

/// The suitability multiplier of one entity, in 0..=100.
pub open spec fn suitability_of(t: Option<Temperature>, a: Option<Atmosphere>, p: Params) -> int {
    temp_suit(t, p) * oxy_suit(a, p) / 100
}

/// The suitability of every entity, in entity order.
pub open spec fn suits_after(
    tv: Seq<Option<Temperature>>,
    av: Seq<Option<Atmosphere>>,
    p: Params,
    n: nat,
) -> Seq<int> {
    Seq::new(n, |e: int| suitability_of(opt_at(tv, e), opt_at(av, e), p))
}

/// Compute the temperature part of the suitability.
fn temp_suit_part(t: Option<&Temperature>, p: &Params) -> (r: u64)
    requires
        p.wf(),
    ensures
        r as int == temp_suit(
            match t {
                Some(tv) => Some(*tv),
                None => None,
            },
            *p,
        ),
        r <= 100,
{
    match t {
        Some(tv) => {
            if tv.value < p.temp_opt - p.temp_band || tv.value > p.temp_opt + p.temp_band {
                0
            } else {
                let dist: i64 = if tv.value >= p.temp_opt {
                    tv.value - p.temp_opt
                } else {
                    p.temp_opt - tv.value
                };
                proof {
                    vstd::arithmetic::div_mod::lemma_div_pos_is_pos(
                        dist as int * 100,
                        p.temp_band as int,
                    );
                    vstd::arithmetic::div_mod::lemma_div_is_ordered(
                        dist as int * 100,
                        p.temp_band as int * 100,
                        p.temp_band as int,
                    );
                    vstd::arithmetic::div_mod::lemma_div_multiples_vanish(100, p.temp_band as int);
                }
                (100 - dist * 100 / p.temp_band) as u64
            }
        },
        None => 100,
    }
}

/// Compute one entity's suitability multiplier.
pub fn suitability(t: Option<&Temperature>, a: Option<&Atmosphere>, p: &Params) -> (s: u64)
    requires
        p.wf(),
        a is Some ==> valid_atmosphere(*a->0),
    ensures
        s as int == suitability_of(
            match t {
                Some(tv) => Some(*tv),
                None => None,
            },
            match a {
                Some(at) => Some(*at),
                None => None,
            },
            *p,
        ),
        s <= 100,
{
    let ts: u64 = temp_suit_part(t, p);
    let os: u64 = match a {
        Some(at) => {
            let scaled: u64 = at.consistency.oxygen * 100 / p.oxy_opt;
            if scaled >= 100 {
                100
            } else {
                scaled
            }
        },
        None => 100,
    };
    proof {
        assert(ts as int * os as int <= 10000) by (nonlinear_arith)
            requires
                ts <= 100,
                os <= 100,
        ;
        vstd::arithmetic::div_mod::lemma_div_pos_is_pos(ts as int * os as int, 100);
        vstd::arithmetic::div_mod::lemma_div_is_ordered(ts as int * os as int, 10000, 100);
    }
    ts * os / 100
}

/// The Planetary Growth System: the suitability of the first `n`
/// entities, handed on to the Housing System.
#[verifier::loop_isolation(false)]
pub fn growth_system(
    n: usize,
    temps: &Table<Temperature>,
    atmos: &Table<Atmosphere>,
    p: &Params,
) -> (suits: Vec<u64>)
    requires
        p.wf(),
        forall|e: int|
            0 <= e < atmos@.len() && atmos@[e] is Some ==> valid_atmosphere(
                (#[trigger] atmos@[e])->0,
            ),
    ensures
        suits@.len() == n,
        forall|e: int|
            0 <= e < n ==> #[trigger] suits@[e] as int == suits_after(
                temps@,
                atmos@,
                *p,
                n as nat,
            )[e],
        forall|e: int| 0 <= e < n ==> #[trigger] suits@[e] <= 100,
{
    let mut suits: Vec<u64> = Vec::new();
    let mut e: usize = 0;
    while e < n
        invariant
            e <= n,
            suits@.len() == e,
            forall|i: int|
                0 <= i < e ==> #[trigger] suits@[i] as int == suits_after(
                    temps@,
                    atmos@,
                    *p,
                    n as nat,
                )[i],
            forall|i: int| 0 <= i < e ==> #[trigger] suits@[i] <= 100,
        decreases n - e,
    {
        let s = suitability(temps.get(e), atmos.get(e), p);
        suits.push(s);
        e = e + 1;
    }
    suits
}

} // verus!
