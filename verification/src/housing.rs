//! The Housing System. Each tick, construction first grows the built
//! capacity toward its ceiling, paying `build_cost` resource units per
//! unit of room (no stock simply stalls expansion), and the population
//! then drifts a bounded step toward a target set by capacity, quality
//! and the suitability multiplier — clamped so the count never leaves
//! `[0, housing.capacity]` and never overshoots the target.

use vstd::prelude::*;

use crate::components::{valid_housing, Housing, Population, Resource};
use crate::num::{min2, min3, min_u64};
use crate::params::Params;
use crate::storage::{opt_at, Table};

verus! {

/// What the Housing System does to one entity:
/// `(housing', population', stock')`.
pub open spec fn housing_entity_after(
    h: Housing,
    pop: Option<Population>,
    res: Option<Resource>,
    suit: int,
    p: Params,
) -> (Housing, Option<Population>, Option<Resource>) {
    let room = h.capacity_max - h.capacity;
    let avail = match res {
        Some(r) => r.amount as int / p.build_cost as int,
        None => 0,
    };
    let build = min2(room, avail);
    let h2 = Housing {
        capacity: (h.capacity + build) as u64,
        capacity_max: h.capacity_max,
        quality: h.quality,
    };
    let res2 = match res {
        Some(r) => Some(Resource { amount: (r.amount - build * p.build_cost) as u64, ..r }),
        None => None,
    };
    let pop2 = match pop {
        Some(q) => {
            let target = min3(
                h2.capacity as int,
                h.capacity_max * h.quality * suit / 10000,
                u32::MAX as int,
            );
            let c = q.count as int;
            let step = if c < target {
                (target - c) * h.quality / p.growth_div as int
            } else {
                (c - target) * h.quality / p.growth_div as int
            };
            Some(
                Population {
                    count: (if c < target {
                        c + step
                    } else {
                        c - step
                    }) as u32,
                },
            )
        },
        None => None,
    };
    (h2, pop2, res2)
}

/// Advance one entity's housing, population and stock by one tick.
pub fn step_housing(
    h: Housing,
    pop: Option<Population>,
    res: Option<Resource>,
    suit: u64,
    p: &Params,
) -> (out: (Housing, Option<Population>, Option<Resource>))
    requires
        valid_housing(h),
        suit <= 100,
        p.wf(),
        pop is Some ==> pop->0.count <= h.capacity,
    ensures
        (out.0, out.1, out.2) == housing_entity_after(h, pop, res, suit as int, *p),
        valid_housing(out.0),
        out.0.capacity_max == h.capacity_max && out.0.quality == h.quality,
        out.0.capacity >= h.capacity,
        out.1 is Some <==> pop is Some,
        out.1 is Some ==> out.1->0.count <= out.0.capacity,
        match res {
            Some(r) => {
                &&& out.2 is Some
                &&& out.2->0.resource_type == r.resource_type
                &&& out.2->0.difficulty == r.difficulty
                &&& out.2->0.amount <= r.amount
            },
            None => out.2 is None,
        },
{
    let room: u64 = h.capacity_max - h.capacity;
    let avail: u64 = match &res {
        Some(r) => r.amount / p.build_cost,
        None => 0,
    };
    let build: u64 = min_u64(room, avail);
    let res2: Option<Resource> = match &res {
        Some(r) => {
            proof {
                vstd::arithmetic::div_mod::lemma_fundamental_div_mod(
                    r.amount as int,
                    p.build_cost as int,
                );
                vstd::arithmetic::mul::lemma_mul_inequality(
                    build as int,
                    avail as int,
                    p.build_cost as int,
                );
            }
            Some(Resource { amount: r.amount - build * p.build_cost, ..*r })
        },
        None => None,
    };
    let h2 = Housing {
        capacity: h.capacity + build,
        capacity_max: h.capacity_max,
        quality: h.quality,
    };
    let pop2: Option<Population> = match &pop {
        Some(q) => {
            proof {
                assert((h.capacity_max as int) * (h.quality as int) <= (u64::MAX as int) * 100)
                    by (nonlinear_arith)
                    requires
                        h.quality <= 100,
                        h.capacity_max <= u64::MAX,
                ;
                assert((h.capacity_max as int) * (h.quality as int) * (suit as int) <= (u64::MAX
                    as int) * 100 * 100) by (nonlinear_arith)
                    requires
                        h.quality <= 100,
                        suit <= 100,
                        h.capacity_max <= u64::MAX,
                ;
                assert((h.capacity_max as int) * (h.quality as int) * (suit as int) >= 0)
                    by (nonlinear_arith)
                    requires
                        h.capacity_max >= 0,
                        h.quality >= 0,
                        suit >= 0,
                ;
                vstd::arithmetic::div_mod::lemma_div_pos_is_pos(
                    h.capacity_max as int * h.quality as int * suit as int,
                    10000,
                );
            }
            let wide: u128 = (h.capacity_max as u128) * (h.quality as u128) * (suit as u128);
            let scaled: u128 = wide / 10000;
            let t1: u64 = if scaled > u32::MAX as u128 {
                u32::MAX as u64
            } else {
                scaled as u64
            };
            let target: u64 = min_u64(h2.capacity, t1);
            proof {
                assert(target as int == min3(
                    h2.capacity as int,
                    h.capacity_max as int * h.quality as int * suit as int / 10000,
                    u32::MAX as int,
                ));
            }
            let c: u64 = q.count as u64;
            let diff: u64 = if c < target {
                target - c
            } else {
                c - target
            };
            proof {
                assert(diff <= u32::MAX);
                assert(diff as int * h.quality as int <= u64::MAX) by (nonlinear_arith)
                    requires
                        diff <= u32::MAX,
                        h.quality <= 100,
                ;
                assert(diff as int * h.quality as int <= diff as int * p.growth_div as int)
                    by (nonlinear_arith)
                    requires
                        h.quality <= p.growth_div,
                        diff >= 0,
                ;
                vstd::arithmetic::div_mod::lemma_div_is_ordered(
                    diff as int * h.quality as int,
                    diff as int * p.growth_div as int,
                    p.growth_div as int,
                );
                assert(diff as int * p.growth_div as int == p.growth_div as int * diff as int)
                    by (nonlinear_arith);
                vstd::arithmetic::div_mod::lemma_div_multiples_vanish(
                    diff as int,
                    p.growth_div as int,
                );
                vstd::arithmetic::div_mod::lemma_div_pos_is_pos(
                    diff as int * h.quality as int,
                    p.growth_div as int,
                );
            }
            let step: u64 = diff * h.quality / p.growth_div;
            let c2: u64 = if c < target {
                c + step
            } else {
                c - step
            };
            Some(Population { count: c2 as u32 })
        },
        None => None,
    };
    (h2, pop2, res2)
}

/// Housing works on entity `e` when a housing structure stands there.
pub open spec fn housing_active(hv: Seq<Option<Housing>>, e: int) -> bool {
    0 <= e < hv.len() && hv[e] is Some
}

/// What the Housing System does to entity `e`, over the old table views.
pub open spec fn housing_at(
    hv: Seq<Option<Housing>>,
    pv: Seq<Option<Population>>,
    rv: Seq<Option<Resource>>,
    suits: Seq<u64>,
    p: Params,
    e: int,
) -> (Housing, Option<Population>, Option<Resource>) {
    housing_entity_after(hv[e]->0, opt_at(pv, e), opt_at(rv, e), suits[e] as int, p)
}

/// The housing table after one tick.
pub open spec fn housings_after(
    hv: Seq<Option<Housing>>,
    pv: Seq<Option<Population>>,
    rv: Seq<Option<Resource>>,
    suits: Seq<u64>,
    p: Params,
) -> Seq<Option<Housing>> {
    Seq::new(
        hv.len(),
        |e: int|
            if housing_active(hv, e) {
                Some(housing_at(hv, pv, rv, suits, p, e).0)
            } else {
                hv[e]
            },
    )
}

/// The population table after one tick.
pub open spec fn pops_after_housing(
    hv: Seq<Option<Housing>>,
    pv: Seq<Option<Population>>,
    rv: Seq<Option<Resource>>,
    suits: Seq<u64>,
    p: Params,
) -> Seq<Option<Population>> {
    Seq::new(
        pv.len(),
        |e: int|
            if housing_active(hv, e) && pv[e] is Some {
                housing_at(hv, pv, rv, suits, p, e).1
            } else {
                pv[e]
            },
    )
}

/// The resource table after one tick of construction.
pub open spec fn resources_after_housing(
    hv: Seq<Option<Housing>>,
    pv: Seq<Option<Population>>,
    rv: Seq<Option<Resource>>,
    suits: Seq<u64>,
    p: Params,
) -> Seq<Option<Resource>> {
    Seq::new(
        rv.len(),
        |e: int|
            if housing_active(hv, e) {
                housing_at(hv, pv, rv, suits, p, e).2
            } else {
                rv[e]
            },
    )
}

/// The Housing System: one pass over the housing table.
#[verifier::loop_isolation(false)]
pub fn housing_system(
    housings: &mut Table<Housing>,
    pops: &mut Table<Population>,
    resources: &mut Table<Resource>,
    suits: &Vec<u64>,
    p: &Params,
)
    requires
        old(housings)@.len() <= suits@.len(),
        p.wf(),
        forall|e: int| 0 <= e < suits@.len() ==> #[trigger] suits@[e] <= 100,
        forall|e: int|
            0 <= e < old(housings)@.len() && old(housings)@[e] is Some ==> valid_housing(
                (#[trigger] old(housings)@[e])->0,
            ),
        forall|e: int|
            0 <= e < old(pops)@.len() && old(pops)@[e] is Some && housing_active(
                old(housings)@,
                e,
            ) ==> ((#[trigger] old(pops)@[e])->0).count <= old(housings)@[e]->0.capacity,
    ensures
        final(housings)@ == housings_after(
            old(housings)@,
            old(pops)@,
            old(resources)@,
            suits@,
            *p,
        ),
        final(pops)@ == pops_after_housing(
            old(housings)@,
            old(pops)@,
            old(resources)@,
            suits@,
            *p,
        ),
        final(resources)@ == resources_after_housing(
            old(housings)@,
            old(pops)@,
            old(resources)@,
            suits@,
            *p,
        ),
        final(housings)@.len() == old(housings)@.len(),
        final(pops)@.len() == old(pops)@.len(),
        final(resources)@.len() == old(resources)@.len(),
        forall|e: int|
            0 <= e < final(housings)@.len() && final(housings)@[e] is Some ==> valid_housing(
                (#[trigger] final(housings)@[e])->0,
            ),
        forall|e: int|
            0 <= e < final(housings)@.len() ==> ((#[trigger] final(housings)@[e]) is Some <==> old(
                housings,
            )@[e] is Some),
        forall|e: int|
            0 <= e < final(pops)@.len() ==> ((#[trigger] final(pops)@[e]) is Some <==> old(
                pops,
            )@[e] is Some),
        forall|e: int|
            0 <= e < final(pops)@.len() && final(pops)@[e] is Some && housing_active(
                final(housings)@,
                e,
            ) ==> ((#[trigger] final(pops)@[e])->0).count <= final(housings)@[e]->0.capacity,
        forall|e: int|
            0 <= e < final(pops)@.len() && final(pops)@[e] is Some && !housing_active(
                final(housings)@,
                e,
            ) ==> final(pops)@[e] == old(pops)@[e],
        forall|e: int|
            0 <= e < old(resources)@.len() ==> {
                &&& ((#[trigger] final(resources)@[e]) is Some <==> old(resources)@[e] is Some)
                &&& old(resources)@[e] is Some ==> {
                    &&& final(resources)@[e]->0.resource_type == old(
                        resources,
                    )@[e]->0.resource_type
                    &&& final(resources)@[e]->0.difficulty == old(resources)@[e]->0.difficulty
                }
            },
{
    let ghost hv0 = old(housings)@;
    let ghost pv0 = old(pops)@;
    let ghost rv0 = old(resources)@;
    let n: usize = housings.len();
    let mut e: usize = 0;
    while e < n
        invariant
            e <= n,
            housings@.len() == n == hv0.len(),
            pops@.len() == pv0.len(),
            resources@.len() == rv0.len(),
            forall|i: int| e <= i < n ==> housings@[i] == hv0[i],
            forall|i: int| e <= i < pops@.len() ==> pops@[i] == pv0[i],
            forall|i: int| e <= i < resources@.len() ==> resources@[i] == rv0[i],
            forall|i: int|
                0 <= i < e ==> #[trigger] housings@[i] == housings_after(hv0, pv0, rv0, suits@, *p)[i],
            forall|i: int|
                0 <= i < e && i < pops@.len() ==> #[trigger] pops@[i] == pops_after_housing(
                    hv0,
                    pv0,
                    rv0,
                    suits@,
                    *p,
                )[i],
            forall|i: int|
                0 <= i < e && i < resources@.len() ==> #[trigger] resources@[i]
                    == resources_after_housing(hv0, pv0, rv0, suits@, *p)[i],
            forall|i: int|
                0 <= i < n && housings@[i] is Some ==> valid_housing((#[trigger] housings@[i])->0),
            forall|i: int|
                0 <= i < n ==> ((#[trigger] housings@[i]) is Some <==> hv0[i] is Some),
            forall|i: int|
                0 <= i < pops@.len() ==> ((#[trigger] pops@[i]) is Some <==> pv0[i] is Some),
            forall|i: int|
                0 <= i < pops@.len() && pops@[i] is Some && housing_active(housings@, i) ==> ((
                #[trigger] pops@[i])->0).count <= housings@[i]->0.capacity,
            forall|i: int|
                0 <= i < pops@.len() && pops@[i] is Some && !housing_active(housings@, i)
                    ==> pops@[i] == pv0[i],
            forall|i: int|
                0 <= i < resources@.len() ==> {
                    &&& ((#[trigger] resources@[i]) is Some <==> rv0[i] is Some)
                    &&& rv0[i] is Some ==> {
                        &&& resources@[i]->0.resource_type == rv0[i]->0.resource_type
                        &&& resources@[i]->0.difficulty == rv0[i]->0.difficulty
                    }
                },
        decreases n - e,
    {
        let h_opt: Option<&Housing> = housings.get(e);
        match h_opt {
            Some(h) => {
                let h: Housing = *h;
                let pop_opt: Option<Population> = match pops.get(e) {
                    Some(q) => Some(*q),
                    None => None,
                };
                let res_opt: Option<Resource> = match resources.get(e) {
                    Some(r) => Some(*r),
                    None => None,
                };
                proof {
                    assert(pop_opt == opt_at(pv0, e as int));
                    assert(res_opt == opt_at(rv0, e as int));
                }
                let out = step_housing(h, pop_opt, res_opt, suits[e], p);
                housings.set(e, out.0);
                match out.1 {
                    Some(q) => pops.set(e, q),
                    None => {},
                }
                match out.2 {
                    Some(r) => resources.set(e, r),
                    None => {},
                }
            },
            None => {},
        }
        e = e + 1;
    }
    proof {
        assert(housings@ =~= housings_after(hv0, pv0, rv0, suits@, *p));
        assert(pops@ =~= pops_after_housing(hv0, pv0, rv0, suits@, *p));
        assert(resources@ =~= resources_after_housing(hv0, pv0, rv0, suits@, *p));
    }
}

} // verus!
