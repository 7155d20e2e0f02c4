//! The Simulation Scheduler: executes the systems once per fixed tick,
//! in dependency order — Kinematics, Mining (manned, then automated),
//! Atmosphere, Growth, Housing — so every system reads only values
//! already finalized earlier in the same tick. A tick is atomic: the
//! shell reads state only between ticks.

use vstd::prelude::*;

use crate::atmosphere::{atmos_after, atmosphere_system};
use crate::growth::{growth_system, suitability_of};
use crate::housing::{
    housing_system, housings_after, pops_after_housing, resources_after_housing,
};
use crate::kinematics::{kinematics_system, lemma_zero_velocity_fixed, positions_after};
use crate::mining::{
    automated_mining_system, byproducts_auto, byproducts_manned, deposits_after_auto,
    deposits_after_manned, deposits_mined_from, manned_mining_system, mines_after_manned,
    resources_after_auto, resources_after_manned, structs_after_manned,
};
use crate::num::sat_add_spec;
use crate::storage::opt_at;
use crate::world::{World, WorldView};

verus! {

/// One tick of the whole world, mathematically: the composition of the
/// five systems in scheduling order.
pub open spec fn spec_tick(v: WorldView, dt: u64) -> WorldView {
    let k = v.params.difficulty_scale;
    let pos1 = positions_after(v.positions, v.velocities, dt);
    let mv1 = mines_after_manned(v.mines, v.mine_structs, v.deposits, v.resources, dt, k);
    let sv1 = structs_after_manned(v.mines, v.mine_structs, v.deposits, v.resources, dt, k);
    let dv1 = deposits_after_manned(v.mines, v.mine_structs, v.deposits, v.resources, dt, k);
    let rv1 = resources_after_manned(v.mines, v.mine_structs, v.deposits, v.resources, dt, k);
    let bm = byproducts_manned(v.mines, v.mine_structs, v.deposits, v.resources, dt, k, v.n);
    let dv2 = deposits_after_auto(v.auto_mines, dv1, rv1, dt, k);
    let rv2 = resources_after_auto(v.auto_mines, dv1, rv1, dt, k);
    let ba = byproducts_auto(v.auto_mines, dv1, rv1, dt, k, v.n);
    let byp = Seq::new(v.n, |e: int| sat_add_spec(bm[e], ba[e]) as u64);
    let av1 = atmos_after(v.atmospheres, v.populations, byp, v.params);
    let suits = Seq::new(
        v.n,
        |e: int| suitability_of(opt_at(v.temperatures, e), opt_at(av1, e), v.params) as u64,
    );
    let hv1 = housings_after(v.housings, v.populations, rv2, suits, v.params);
    let pv1 = pops_after_housing(v.housings, v.populations, rv2, suits, v.params);
    let rv3 = resources_after_housing(v.housings, v.populations, rv2, suits, v.params);
    WorldView {
        positions: pos1,
        mines: mv1,
        mine_structs: sv1,
        deposits: dv2,
        resources: rv3,
        atmospheres: av1,
        housings: hv1,
        populations: pv1,
        ..v
    }
}

/// `n` ticks of the whole world.
pub open spec fn spec_run(v: WorldView, dt: u64, n: nat) -> WorldView
    decreases n,
{
    if n == 0 {
        v
    } else {
        spec_tick(spec_run(v, dt, (n - 1) as nat), dt)
    }
}

impl World {
    /// Advance the world by one tick of length `dt`. Never fails: every
    /// per-tick operation saturates or clamps.
    pub fn tick(&mut self, dt: u64)
        requires
            old(self)@.wf(),
        ensures
            final(self)@ == spec_tick(old(self)@, dt),
            final(self)@.wf(),
            final(self)@.n == old(self)@.n,
            final(self)@.velocities == old(self)@.velocities,
            final(self)@.temperatures == old(self)@.temperatures,
            final(self)@.auto_mines == old(self)@.auto_mines,
            final(self)@.mineable == old(self)@.mineable,
            final(self)@.params == old(self)@.params,
            // deposits only ever drain: never negative, never removed
            final(self)@.deposits.len() == old(self)@.deposits.len(),
            forall|e: int|
                0 <= e < old(self)@.deposits.len() ==> {
                    &&& ((#[trigger] final(self)@.deposits[e]) is Some <==> old(
                        self,
                    )@.deposits[e] is Some)
                    &&& old(self)@.deposits[e] is Some ==> deposits_mined_from(
                        old(self)@.deposits[e]->0,
                        final(self)@.deposits[e]->0,
                    )
                },
            // a body with no angular rate keeps its position
            final(self)@.positions.len() == old(self)@.positions.len(),
            forall|e: int|
                0 <= e < old(self)@.positions.len() && (#[trigger] old(
                    self,
                )@.positions[e]) is Some && (opt_at(old(self)@.velocities, e) is None || opt_at(
                    old(self)@.velocities,
                    e,
                )->0.angle == 0) ==> final(self)@.positions[e] == old(self)@.positions[e],
    {
        let ghost v0 = self@;
        let n: usize = self.n_entities;
        let k: u64 = self.params.difficulty_scale;
        kinematics_system(&mut self.positions, &self.velocities, dt);
        proof {
            assert forall|e: int|
                0 <= e < self.mines@.len() && self.mines@[e] is Some implies crate::mining::crews_mined_from(
                (#[trigger] self.mines@[e])->0.manned@,
                self.mines@[e]->0.manned@,
            ) by {
                let cs = v0.mines[e]->0;
                assert(cs == self.mines@[e]->0.manned@);
                assert forall|j: int|
                    0 <= j < cs.len() implies (#[trigger] cs[j]).capacity
                    <= cs[j].capacity_max by {
                    assert(crate::components::valid_manned(
                        v0.mines[e]->0[j],
                        v0.params.n_resource_kinds,
                    ));
                }
            }
            assert forall|e: int|
                0 <= e < self.mine_structs@.len()
                    && self.mine_structs@[e] is Some implies crate::mining::struct_mined_from(
                #[trigger] self.mine_structs@[e],
                self.mine_structs@[e],
            ) by {
                assert(crate::components::valid_mine(
                    v0.mine_structs[e]->0,
                    v0.params.n_resource_kinds,
                ));
            }
            assert forall|e: int|
                0 <= e < self.deposits@.len()
                    && self.deposits@[e] is Some implies crate::mining::deposits_nonneg(
                (#[trigger] self.deposits@[e])->0.natural@,
            ) by {
                let a = v0.deposits[e]->0;
                assert(a == self.deposits@[e]->0.natural@);
                assert forall|j: int|
                    0 <= j < a.len() implies (#[trigger] a[j]).difficulty >= 0 by {
                    assert(crate::components::valid_deposit(
                        v0.deposits[e]->0[j],
                        v0.params.n_resource_kinds,
                    ));
                }
            }
        }
        let mut byp = manned_mining_system(
            n,
            &mut self.mines,
            &mut self.mine_structs,
            &mut self.deposits,
            &mut self.resources,
            dt,
            k,
        );
        proof {
            assert forall|e: int|
                0 <= e < self.deposits@.len()
                    && self.deposits@[e] is Some implies crate::mining::deposits_nonneg(
                (#[trigger] self.deposits@[e])->0.natural@,
            ) by {
                let a = v0.deposits[e]->0;
                let b = self.deposits@[e]->0.natural@;
                assert(deposits_mined_from(a, b));
                assert forall|j: int|
                    0 <= j < b.len() implies (#[trigger] b[j]).difficulty >= 0 by {
                    assert(crate::components::valid_deposit(
                        v0.deposits[e]->0[j],
                        v0.params.n_resource_kinds,
                    ));
                    assert(b[j].difficulty == a[j].difficulty);
                }
            }
        }
        automated_mining_system(
            n,
            &self.auto_mines,
            &mut self.deposits,
            &mut self.resources,
            dt,
            k,
            &mut byp,
        );
        let ghost bm = byproducts_manned(
            v0.mines,
            v0.mine_structs,
            v0.deposits,
            v0.resources,
            dt,
            k,
            v0.n,
        );
        let ghost dv1 = deposits_after_manned(
            v0.mines,
            v0.mine_structs,
            v0.deposits,
            v0.resources,
            dt,
            k,
        );
        let ghost rv1 = resources_after_manned(
            v0.mines,
            v0.mine_structs,
            v0.deposits,
            v0.resources,
            dt,
            k,
        );
        let ghost ba = byproducts_auto(v0.auto_mines, dv1, rv1, dt, k, v0.n);
        proof {
            assert(byp@ =~= Seq::new(v0.n, |e: int| sat_add_spec(bm[e], ba[e]) as u64));
        }
        atmosphere_system(&mut self.atmospheres, &self.populations, &byp, &self.params);
        let suits = growth_system(n, &self.temperatures, &self.atmospheres, &self.params);
        let ghost av1 = atmos_after(
            v0.atmospheres,
            v0.populations,
            Seq::new(v0.n, |e: int| sat_add_spec(bm[e], ba[e]) as u64),
            v0.params,
        );
        proof {
            assert(suits@ =~= Seq::new(
                v0.n,
                |e: int| suitability_of(opt_at(v0.temperatures, e), opt_at(av1, e), v0.params)
                    as u64,
            ));
        }
        housing_system(
            &mut self.housings,
            &mut self.populations,
            &mut self.resources,
            &suits,
            &self.params,
        );
        proof {
            let vf = self@;
            let vt = spec_tick(v0, dt);
            assert(vf.positions == vt.positions);
            assert(vf.mines == vt.mines);
            assert(vf.mine_structs == vt.mine_structs);
            assert(vf.deposits == vt.deposits);
            assert(vf.atmospheres == vt.atmospheres);
            assert(vf.housings == vt.housings);
            assert(vf.populations == vt.populations);
            assert(vf.resources == vt.resources);
            assert(vf == vt);
            // the deposit drain law, across both mining passes
            assert forall|e: int|
                0 <= e < v0.deposits.len() && (#[trigger] v0.deposits[e]) is Some implies deposits_mined_from(
                v0.deposits[e]->0,
                vf.deposits[e]->0,
            ) by {
                assert(deposits_mined_from(v0.deposits[e]->0, dv1[e]->0));
                assert(deposits_mined_from(dv1[e]->0, vf.deposits[e]->0));
            }
            // the stationary-body law
            assert forall|e: int|
                0 <= e < v0.positions.len() && (#[trigger] v0.positions[e]) is Some && (opt_at(
                    v0.velocities,
                    e,
                ) is None || opt_at(v0.velocities, e)->0.angle == 0) implies vf.positions[e]
                == v0.positions[e] by {
                lemma_zero_velocity_fixed(v0.positions, v0.velocities, dt, e);
            }
        }
    }

    /// Advance the world by `n` ticks of length `dt`. Running zero
    /// ticks leaves every component value unchanged.
    #[verifier::loop_isolation(false)]
    pub fn run_ticks(&mut self, dt: u64, n: u64)
        requires
            old(self)@.wf(),
        ensures
            final(self)@ == spec_run(old(self)@, dt, n as nat),
            final(self)@.wf(),
            n == 0 ==> final(self)@ == old(self)@,
            final(self)@.n == old(self)@.n,
            final(self)@.velocities == old(self)@.velocities,
            final(self)@.temperatures == old(self)@.temperatures,
            final(self)@.auto_mines == old(self)@.auto_mines,
            final(self)@.mineable == old(self)@.mineable,
            final(self)@.params == old(self)@.params,
            final(self)@.deposits.len() == old(self)@.deposits.len(),
            forall|e: int|
                0 <= e < old(self)@.deposits.len() ==> {
                    &&& ((#[trigger] final(self)@.deposits[e]) is Some <==> old(
                        self,
                    )@.deposits[e] is Some)
                    &&& old(self)@.deposits[e] is Some ==> deposits_mined_from(
                        old(self)@.deposits[e]->0,
                        final(self)@.deposits[e]->0,
                    )
                },
            final(self)@.positions.len() == old(self)@.positions.len(),
            forall|e: int|
                0 <= e < old(self)@.positions.len() && (#[trigger] old(
                    self,
                )@.positions[e]) is Some && (opt_at(old(self)@.velocities, e) is None || opt_at(
                    old(self)@.velocities,
                    e,
                )->0.angle == 0) ==> final(self)@.positions[e] == old(self)@.positions[e],
    {
        let mut i: u64 = 0;
        while i < n
            invariant
                i <= n,
                self@.wf(),
                self@ == spec_run(old(self)@, dt, i as nat),
                self@.n == old(self)@.n,
                self@.velocities == old(self)@.velocities,
                self@.temperatures == old(self)@.temperatures,
                self@.auto_mines == old(self)@.auto_mines,
                self@.mineable == old(self)@.mineable,
                self@.params == old(self)@.params,
                self@.deposits.len() == old(self)@.deposits.len(),
                forall|e: int|
                    0 <= e < old(self)@.deposits.len() ==> {
                        &&& ((#[trigger] self@.deposits[e]) is Some <==> old(
                            self,
                        )@.deposits[e] is Some)
                        &&& old(self)@.deposits[e] is Some ==> deposits_mined_from(
                            old(self)@.deposits[e]->0,
                            self@.deposits[e]->0,
                        )
                    },
                self@.positions.len() == old(self)@.positions.len(),
                forall|e: int|
                    0 <= e < old(self)@.positions.len() && (#[trigger] old(
                        self,
                    )@.positions[e]) is Some && (opt_at(old(self)@.velocities, e) is None
                        || opt_at(old(self)@.velocities, e)->0.angle == 0) ==> self@.positions[e]
                        == old(self)@.positions[e],
            decreases n - i,
        {
            let ghost mid = self@;
            self.tick(dt);
            proof {
                assert(spec_run(old(self)@, dt, (i + 1) as nat) == spec_tick(
                    spec_run(old(self)@, dt, i as nat),
                    dt,
                ));
                assert forall|e: int|
                    0 <= e < old(self)@.deposits.len() && (#[trigger] old(
                        self,
                    )@.deposits[e]) is Some implies deposits_mined_from(
                    old(self)@.deposits[e]->0,
                    self@.deposits[e]->0,
                ) by {
                    assert(deposits_mined_from(old(self)@.deposits[e]->0, mid.deposits[e]->0));
                    assert(deposits_mined_from(mid.deposits[e]->0, self@.deposits[e]->0));
                }
                assert forall|e: int|
                    0 <= e < old(self)@.positions.len() && (#[trigger] old(
                        self,
                    )@.positions[e]) is Some && (opt_at(old(self)@.velocities, e) is None
                        || opt_at(old(self)@.velocities, e)->0.angle == 0) implies self@.positions[e]
                    == old(self)@.positions[e] by {
                    assert(mid.positions[e] == old(self)@.positions[e]);
                    assert(opt_at(mid.velocities, e) == opt_at(old(self)@.velocities, e));
                }
            }
            i = i + 1;
        }
    }
}

} // verus!
