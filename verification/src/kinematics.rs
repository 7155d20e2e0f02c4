//! Orbital kinematics: every entity with both a `Position` and a
//! `Velocity` advances its polar angle by `velocity.angle * dt`
//! microradians each tick, wrapping at a full turn. The radius never
//! changes; Cartesian coordinates are the rendering shell's concern.

use vstd::prelude::*;

use crate::components::{valid_position, Position, Velocity, FULL_TURN};
use crate::num::{sat_mul, sat_mul_spec};
use crate::storage::Table;

verus! {

/// The angle after one tick: the old angle advanced by `rate * dt`
/// (saturating) microradians, wrapped into `[0, FULL_TURN)`.
pub open spec fn angle_after(angle: u64, rate: u64, dt: u64) -> int {
    (angle + (sat_mul_spec(rate as int, dt as int) % (FULL_TURN as int))) % (FULL_TURN as int)
}

/// One entity's position after one tick.
pub open spec fn position_after(p: Position, v: Velocity, dt: u64) -> Position {
    Position { r: p.r, angle: angle_after(p.angle, v.angle, dt) as u64 }
}

/// The whole position table after one tick: entities with both
/// components advance; all others keep their position.
pub open spec fn positions_after(
    pos: Seq<Option<Position>>,
    vel: Seq<Option<Velocity>>,
    dt: u64,
) -> Seq<Option<Position>> {
    Seq::new(
        pos.len(),
        |e: int|
            if pos[e] is Some && 0 <= e < vel.len() && vel[e] is Some {
                Some(position_after(pos[e]->0, vel[e]->0, dt))
            } else {
                pos[e]
            },
    )
}

/// A stationary body (angular rate zero) keeps its position exactly.
pub proof fn lemma_zero_velocity_fixed(
    pos: Seq<Option<Position>>,
    vel: Seq<Option<Velocity>>,
    dt: u64,
    e: int,
)
    requires
        0 <= e < pos.len(),
        pos[e] is Some ==> valid_position(pos[e]->0),
        0 <= e < vel.len() && vel[e] is Some ==> vel[e]->0.angle == 0,
    ensures
        positions_after(pos, vel, dt)[e] == pos[e],
{
    if pos[e] is Some && e < vel.len() && vel[e] is Some {
        let p = pos[e]->0;
        assert(sat_mul_spec(0, dt as int) == 0);
        assert(angle_after(p.angle, 0, dt) == (p.angle as int) % (FULL_TURN as int));
        assert((p.angle as int) % (FULL_TURN as int) == p.angle as int);
    }
}

/// Advance one position by one tick.
pub fn step_position(p: Position, v: Velocity, dt: u64) -> (q: Position)
    requires
        valid_position(p),
    ensures
        q == position_after(p, v, dt),
        valid_position(q),
        v.angle == 0 ==> q == p,
{
    let delta: u64 = sat_mul(v.angle, dt) % FULL_TURN;
    let a: u64 = (p.angle + delta) % FULL_TURN;
    proof {
        if v.angle == 0 {
            assert(sat_mul_spec(0, dt as int) == 0);
            assert(p.angle % FULL_TURN == p.angle);
        }
    }
    Position { r: p.r, angle: a }
}

/// The Orbital Kinematics System: one pass over the position table.
pub fn kinematics_system(pos: &mut Table<Position>, vel: &Table<Velocity>, dt: u64)
    requires
        forall|i: int|
            0 <= i < old(pos)@.len() && old(pos)@[i] is Some ==> valid_position(
                #[trigger] old(pos)@[i]->0,
            ),
    ensures
        final(pos)@ == positions_after(old(pos)@, vel@, dt),
        forall|i: int|
            0 <= i < final(pos)@.len() && final(pos)@[i] is Some ==> valid_position(
                #[trigger] final(pos)@[i]->0,
            ),
{
    let n: usize = pos.len();
    let ghost target = positions_after(old(pos)@, vel@, dt);
    let mut e: usize = 0;
    while e < n
        invariant
            n == old(pos)@.len(),
            pos@.len() == n,
            target == positions_after(old(pos)@, vel@, dt),
            forall|i: int| e <= i < n ==> pos@[i] == old(pos)@[i],
            forall|i: int| 0 <= i < e ==> pos@[i] == target[i],
            forall|i: int|
                0 <= i < old(pos)@.len() && old(pos)@[i] is Some ==> valid_position(
                    #[trigger] old(pos)@[i]->0,
                ),
        decreases n - e,
    {
        let cur: Option<&Position> = pos.get(e);
        match cur {
            Some(p) => {
                let p: Position = *p;
                match vel.get(e) {
                    Some(v) => {
                        let q = step_position(p, *v, dt);
                        pos.set(e, q);
                    },
                    None => {},
                }
            },
            None => {},
        }
        e = e + 1;
    }
    proof {
        assert(pos@ =~= target);
        assert forall|i: int| 0 <= i < pos@.len() && pos@[i] is Some implies valid_position(
            pos@[i]->0,
        ) by {
            if old(pos)@[i] is Some && 0 <= i < vel@.len() && vel@[i] is Some {
                assert(pos@[i]->0.angle == angle_after(old(pos)@[i]->0.angle, vel@[i]->0.angle, dt));
            }
        }
    }
}

} // verus!
