//! Resource extraction, shared by the manned and the automated mining
//! systems.
//!
//! One mining unit (a crew, a crewed mine structure, or an automated
//! mine) works the first non-exhausted deposit whose type matches its
//! input type. The extracted amount is the three-way minimum of the
//! realized rate `efficiency * dt / (1 + difficulty * k)`, the remaining
//! deposit, and the free buffer room; it leaves the deposit, enters the
//! unit's buffer, and is credited to the owning entity's resource stock
//! when the stock's kind equals the unit's output type (conversion from
//! input to output kind is refining). A mine with no matching deposit, or
//! with a full buffer, is idle: zero output, never an error.

use vstd::prelude::*;

use crate::components::{AutomatedMine, Deposit, Deposits, Manned, Mine, Mines, Resource};
use crate::num::{
    lemma_sat_add_assoc, min3, min_u64, sat_add, sat_add_spec, sat_mul, sat_mul_spec,
};
use crate::storage::{opt_at, Table};

verus! {

/// The crew lists of a mines table, as plain sequences.
pub open spec fn mines_view(t: Seq<Option<Mines>>) -> Seq<Option<Seq<Manned>>> {
    Seq::new(
        t.len(),
        |e: int|
            match t[e] {
                Some(m) => Some(m.manned@),
                None => None,
            },
    )
}

/// The deposit lists of a deposits table, as plain sequences.
pub open spec fn deposits_view(t: Seq<Option<Deposits>>) -> Seq<Option<Seq<Deposit>>> {
    Seq::new(
        t.len(),
        |e: int|
            match t[e] {
                Some(d) => Some(d.natural@),
                None => None,
            },
    )
}

/// Mining worked `b` out of `a`: the same crews with the same static
/// fields, each buffer still within its bound.
pub open spec fn crews_mined_from(a: Seq<Manned>, b: Seq<Manned>) -> bool {
    &&& b.len() == a.len()
    &&& forall|j: int|
        0 <= j < a.len() ==> {
            &&& (#[trigger] b[j]).efficiency == a[j].efficiency
            &&& b[j].input_type == a[j].input_type
            &&& b[j].output_type == a[j].output_type
            &&& b[j].capacity_max == a[j].capacity_max
            &&& b[j].capacity <= b[j].capacity_max
        }
}

/// Mining worked `b` out of `a`: the same deposits in the same order,
/// each amount no larger than before — deposits are never removed, only
/// drawn down.
pub open spec fn deposits_mined_from(a: Seq<Deposit>, b: Seq<Deposit>) -> bool {
    &&& b.len() == a.len()
    &&& forall|j: int|
        0 <= j < a.len() ==> {
            &&& (#[trigger] b[j]).deposit_type == a[j].deposit_type
            &&& b[j].difficulty == a[j].difficulty
            &&& b[j].amount <= a[j].amount
        }
}

/// Every deposit's difficulty is a non-negative cost factor.
pub open spec fn deposits_nonneg(ds: Seq<Deposit>) -> bool {
    forall|j: int| 0 <= j < ds.len() ==> (#[trigger] ds[j]).difficulty >= 0
}

/// Mining turned stock `a` into stock `b`: same kind, never less.
pub open spec fn resource_credited_from(a: Option<Resource>, b: Option<Resource>) -> bool {
    match a {
        Some(r) => {
            &&& b is Some
            &&& b->0.resource_type == r.resource_type
            &&& b->0.difficulty == r.difficulty
            &&& b->0.amount >= r.amount
        },
        None => b is None,
    }
}

/// Mining worked structure `b` out of structure `a`.
pub open spec fn struct_mined_from(a: Option<Mine>, b: Option<Mine>) -> bool {
    match a {
        Some(m) => {
            &&& b is Some
            &&& b->0.efficiency == m.efficiency
            &&& b->0.input_type == m.input_type
            &&& b->0.output_type == m.output_type
            &&& b->0.capacity_max == m.capacity_max
            &&& b->0.capacity <= b->0.capacity_max
        },
        None => b is None,
    }
}

/// The realized extraction rate of a unit over one tick: difficulty
/// scales efficiency down through the tunable factor `k`.
pub open spec fn rate_of(eff: u64, difficulty: i8, dt: u64, k: u64) -> int {
    sat_mul_spec(eff as int, dt as int) / sat_add_spec(
        1,
        sat_mul_spec(difficulty as int, k as int),
    )
}

/// Index of the first non-exhausted deposit of type `t` at or after `i`,
/// or -1 when none exists.
pub open spec fn first_match_from(ds: Seq<Deposit>, t: i8, i: int) -> int
    decreases ds.len() - i,
{
    if i < 0 || i >= ds.len() {
        -1
    } else if ds[i].deposit_type == t && ds[i].amount > 0 {
        i
    } else {
        first_match_from(ds, t, i + 1)
    }
}

/// Index of the deposit a unit with input type `t` works, or -1 when it
/// is idle this tick.
pub open spec fn first_match(ds: Seq<Deposit>, t: i8) -> int {
    first_match_from(ds, t, 0)
}

/// The entity's stock after crediting `x` freshly refined units of kind
/// `out_t`: counted only when the stock is of that kind, saturating.
pub open spec fn credited(res: Option<Resource>, out_t: i8, x: int) -> Option<Resource> {
    match res {
        Some(r) => if r.resource_type == out_t {
            Some(Resource { amount: sat_add_spec(r.amount as int, x) as u64, ..r })
        } else {
            Some(r)
        },
        None => None,
    }
}

/// What one mining unit does in one tick:
/// `(deposits', stock', buffer', extracted)`.
pub open spec fn unit_after(
    eff: u64,
    in_t: i8,
    out_t: i8,
    cap: u64,
    cap_max: u64,
    ds: Seq<Deposit>,
    res: Option<Resource>,
    dt: u64,
    k: u64,
) -> (Seq<Deposit>, Option<Resource>, int, int) {
    let idx = first_match(ds, in_t);
    if idx == -1 {
        (ds, res, cap as int, 0)
    } else {
        let d = ds[idx];
        let x = min3(rate_of(eff, d.difficulty, dt, k), d.amount as int, cap_max - cap);
        (
            ds.update(idx, Deposit { amount: (d.amount - x) as u64, ..d }),
            credited(res, out_t, x),
            cap + x,
            x,
        )
    }
}

/// What the crew list does from index `i` on, threading deposits and
/// stock through in list order: `(crews', deposits', stock', total)`.
pub open spec fn crews_from(
    crews: Seq<Manned>,
    ds: Seq<Deposit>,
    res: Option<Resource>,
    dt: u64,
    k: u64,
    i: int,
) -> (Seq<Manned>, Seq<Deposit>, Option<Resource>, int)
    decreases crews.len() - i,
{
    if i < 0 || i >= crews.len() {
        (crews, ds, res, 0)
    } else {
        let c = crews[i];
        let u = unit_after(
            c.efficiency,
            c.input_type,
            c.output_type,
            c.capacity,
            c.capacity_max,
            ds,
            res,
            dt,
            k,
        );
        let crews2 = crews.update(i, Manned { capacity: u.2 as u64, ..c });
        let rest = crews_from(crews2, u.0, u.1, dt, k, i + 1);
        (rest.0, rest.1, rest.2, sat_add_spec(u.3, rest.3))
    }
}

/// A found index really is a non-exhausted deposit of the wanted type.
pub proof fn lemma_first_match_props(ds: Seq<Deposit>, t: i8, i: int)
    ensures
        ({
            let r = first_match_from(ds, t, i);
            r == -1 || (i <= r < ds.len() && ds[r].deposit_type == t && ds[r].amount > 0)
        }),
    decreases ds.len() - i,
{
    if 0 <= i < ds.len() && !(ds[i].deposit_type == t && ds[i].amount > 0) {
        lemma_first_match_props(ds, t, i + 1);
    }
}

/// One mining unit extracts a non-negative amount bounded by its free
/// room, and touches only the amount of the deposit it works.
pub proof fn lemma_unit_shape(
    eff: u64,
    in_t: i8,
    out_t: i8,
    cap: u64,
    cap_max: u64,
    ds: Seq<Deposit>,
    res: Option<Resource>,
    dt: u64,
    k: u64,
)
    requires
        cap <= cap_max,
        forall|j: int| 0 <= j < ds.len() ==> (#[trigger] ds[j]).difficulty >= 0,
    ensures
        ({
            let u = unit_after(eff, in_t, out_t, cap, cap_max, ds, res, dt, k);
            &&& 0 <= u.3 <= u64::MAX
            &&& u.2 == cap + u.3 && u.2 <= cap_max
            &&& u.0.len() == ds.len()
            &&& forall|j: int|
                0 <= j < ds.len() ==> {
                    &&& (#[trigger] u.0[j]).deposit_type == ds[j].deposit_type
                    &&& u.0[j].difficulty == ds[j].difficulty
                    &&& u.0[j].amount <= ds[j].amount
                }
        }),
{
    let idx = first_match(ds, in_t);
    lemma_first_match_props(ds, in_t, 0);
    if idx != -1 {
        let d = ds[idx];
        let a = sat_mul_spec(eff as int, dt as int);
        let b = sat_add_spec(1, sat_mul_spec(d.difficulty as int, k as int));
        assert(a >= 0 && b >= 1) by (nonlinear_arith)
            requires
                eff >= 0,
                dt >= 0,
                d.difficulty >= 0,
                k >= 0,
                a == sat_mul_spec(eff as int, dt as int),
                b == sat_add_spec(1, sat_mul_spec(d.difficulty as int, k as int)),
        ;
        vstd::arithmetic::div_mod::lemma_div_pos_is_pos(a, b);
    }
}

/// A crew fold's running total is a saturating sum of per-unit outputs,
/// so it stays within the machine word.
pub proof fn lemma_crews_total_bounded(
    crews: Seq<Manned>,
    ds: Seq<Deposit>,
    res: Option<Resource>,
    dt: u64,
    k: u64,
    i: int,
)
    requires
        forall|j: int|
            0 <= j < crews.len() ==> (#[trigger] crews[j]).capacity <= crews[j].capacity_max,
        forall|j: int| 0 <= j < ds.len() ==> (#[trigger] ds[j]).difficulty >= 0,
    ensures
        0 <= crews_from(crews, ds, res, dt, k, i).3 <= u64::MAX,
    decreases crews.len() - i,
{
    if 0 <= i < crews.len() {
        let c = crews[i];
        let u = unit_after(
            c.efficiency,
            c.input_type,
            c.output_type,
            c.capacity,
            c.capacity_max,
            ds,
            res,
            dt,
            k,
        );
        lemma_unit_shape(
            c.efficiency,
            c.input_type,
            c.output_type,
            c.capacity,
            c.capacity_max,
            ds,
            res,
            dt,
            k,
        );
        let crews2 = crews.update(i, Manned { capacity: u.2 as u64, ..c });
        assert forall|j: int|
            0 <= j < crews2.len() implies (#[trigger] crews2[j]).capacity
            <= crews2[j].capacity_max by {
            if j != i {
                assert(crews2[j] == crews[j]);
            }
        }
        lemma_crews_total_bounded(crews2, u.0, u.1, dt, k, i + 1);
    }
}

/// What manned mining does to one entity in one tick. Without at least
/// one crew nothing works, the mine structure included; with crews, the
/// structure works first, then each crew in list order.
/// `(crews', structure', deposits', stock', total)`.
pub open spec fn manned_entity_after(
    crews: Seq<Manned>,
    st: Option<Mine>,
    ds: Seq<Deposit>,
    res: Option<Resource>,
    dt: u64,
    k: u64,
) -> (Seq<Manned>, Option<Mine>, Seq<Deposit>, Option<Resource>, int) {
    if crews.len() == 0 {
        (crews, st, ds, res, 0)
    } else if st is Some {
        let m = st->0;
        let u = unit_after(
            m.efficiency,
            m.input_type,
            m.output_type,
            m.capacity,
            m.capacity_max,
            ds,
            res,
            dt,
            k,
        );
        let c = crews_from(crews, u.0, u.1, dt, k, 0);
        (c.0, Some(Mine { capacity: u.2 as u64, ..m }), c.1, c.2, sat_add_spec(u.3, c.3))
    } else {
        let c = crews_from(crews, ds, res, dt, k, 0);
        (c.0, st, c.1, c.2, c.3)
    }
}

/// Find the deposit a unit of input type `t` works this tick.
pub fn find_deposit(ds: &Vec<Deposit>, t: i8) -> (r: Option<usize>)
    ensures
        match r {
            Some(i) => first_match(ds@, t) == i as int && i < ds@.len(),
            None => first_match(ds@, t) == -1,
        },
{
    let n: usize = ds.len();
    let mut i: usize = 0;
    while i < n
        invariant
            n == ds@.len(),
            i <= n,
            first_match(ds@, t) == first_match_from(ds@, t, i as int),
        decreases n - i,
    {
        let d: Deposit = ds[i];
        if d.deposit_type == t && d.amount > 0 {
            return Some(i);
        }
        proof {
            assert(first_match_from(ds@, t, i as int) == first_match_from(ds@, t, i + 1));
        }
        i = i + 1;
    }
    None
}

/// Run one mining unit for one tick against the deposits and the stock
/// of its entity. Returns `(new_buffer, extracted)`.
pub fn extract_core(
    eff: u64,
    in_t: i8,
    out_t: i8,
    cap: u64,
    cap_max: u64,
    ds: &mut Vec<Deposit>,
    res: &mut Option<Resource>,
    dt: u64,
    k: u64,
) -> (out: (u64, u64))
    requires
        cap <= cap_max,
        forall|j: int| 0 <= j < old(ds)@.len() ==> (#[trigger] old(ds)@[j]).difficulty >= 0,
    ensures
        (final(ds)@, *final(res), out.0 as int, out.1 as int) == unit_after(
            eff,
            in_t,
            out_t,
            cap,
            cap_max,
            old(ds)@,
            *old(res),
            dt,
            k,
        ),
        out.0 == cap + out.1 && out.0 <= cap_max,
        final(ds)@.len() == old(ds)@.len(),
        forall|j: int|
            0 <= j < old(ds)@.len() ==> {
                &&& (#[trigger] final(ds)@[j]).deposit_type == old(ds)@[j].deposit_type
                &&& final(ds)@[j].difficulty == old(ds)@[j].difficulty
                &&& final(ds)@[j].amount <= old(ds)@[j].amount
            },
        match *old(res) {
            Some(r) => {
                &&& *final(res) is Some
                &&& final(res)->0.resource_type == r.resource_type
                &&& final(res)->0.difficulty == r.difficulty
                &&& final(res)->0.amount >= r.amount
            },
            None => *final(res) is None,
        },
{
    match find_deposit(ds, in_t) {
        None => (cap, 0),
        Some(i) => {
            let d: Deposit = ds[i];
            let divisor: u64 = sat_add(1, sat_mul(d.difficulty as u64, k));
            let rate: u64 = sat_mul(eff, dt) / divisor;
            let x: u64 = min_u64(min_u64(rate, d.amount), cap_max - cap);
            ds.set(i, Deposit { amount: d.amount - x, ..d });
            match res {
                Some(r) => {
                    if r.resource_type == out_t {
                        let r2 = Resource { amount: sat_add(r.amount, x), ..*r };
                        *res = Some(r2);
                    }
                },
                None => {},
            }
            (cap + x, x)
        },
    }
}

/// The Mining System (manned) on one entity: the crewed structure and
/// every crew run the extraction algorithm, in order. Returns the total
/// extracted this tick (the mining byproduct fed to the atmosphere).
pub fn mine_entity_manned(
    crews: &mut Vec<Manned>,
    st: &mut Option<Mine>,
    ds: &mut Vec<Deposit>,
    res: &mut Option<Resource>,
    dt: u64,
    k: u64,
) -> (total: u64)
    requires
        forall|j: int|
            0 <= j < old(crews)@.len() ==> (#[trigger] old(crews)@[j]).capacity
                <= old(crews)@[j].capacity_max,
        *old(st) is Some ==> old(st)->0.capacity <= old(st)->0.capacity_max,
        forall|j: int| 0 <= j < old(ds)@.len() ==> (#[trigger] old(ds)@[j]).difficulty >= 0,
    ensures
        ({
            let m = manned_entity_after(old(crews)@, *old(st), old(ds)@, *old(res), dt, k);
            &&& final(crews)@ == m.0
            &&& *final(st) == m.1
            &&& final(ds)@ == m.2
            &&& *final(res) == m.3
            &&& total as int == m.4
        }),
        final(crews)@.len() == old(crews)@.len(),
        forall|j: int|
            0 <= j < old(crews)@.len() ==> {
                &&& (#[trigger] final(crews)@[j]).efficiency == old(crews)@[j].efficiency
                &&& final(crews)@[j].input_type == old(crews)@[j].input_type
                &&& final(crews)@[j].output_type == old(crews)@[j].output_type
                &&& final(crews)@[j].capacity_max == old(crews)@[j].capacity_max
                &&& final(crews)@[j].capacity <= final(crews)@[j].capacity_max
            },
        *final(st) is Some <==> *old(st) is Some,
        *old(st) is Some ==> {
            &&& final(st)->0.efficiency == old(st)->0.efficiency
            &&& final(st)->0.input_type == old(st)->0.input_type
            &&& final(st)->0.output_type == old(st)->0.output_type
            &&& final(st)->0.capacity_max == old(st)->0.capacity_max
            &&& final(st)->0.capacity <= final(st)->0.capacity_max
        },
        final(ds)@.len() == old(ds)@.len(),
        forall|j: int|
            0 <= j < old(ds)@.len() ==> {
                &&& (#[trigger] final(ds)@[j]).deposit_type == old(ds)@[j].deposit_type
                &&& final(ds)@[j].difficulty == old(ds)@[j].difficulty
                &&& final(ds)@[j].amount <= old(ds)@[j].amount
            },
        match *old(res) {
            Some(r) => {
                &&& *final(res) is Some
                &&& final(res)->0.resource_type == r.resource_type
                &&& final(res)->0.difficulty == r.difficulty
                &&& final(res)->0.amount >= r.amount
            },
            None => *final(res) is None,
        },
{
    let n: usize = crews.len();
    if n == 0 {
        return 0;
    }
    let mut x0: u64 = 0;
    match st {
        Some(m) => {
            let mm: Mine = *m;
            let out = extract_core(
                mm.efficiency,
                mm.input_type,
                mm.output_type,
                mm.capacity,
                mm.capacity_max,
                ds,
                res,
                dt,
                k,
            );
            *st = Some(Mine { capacity: out.0, ..mm });
            x0 = out.1;
        },
        None => {},
    }
    let ghost crews0 = crews@;
    let ghost ds2 = ds@;
    let ghost res2 = *res;
    let mut crew_total: u64 = 0;
    let mut i: usize = 0;
    while i < n
        invariant
            n == crews@.len() == crews0.len(),
            i <= n,
            forall|j: int|
                0 <= j < crews@.len() ==> (#[trigger] crews@[j]).capacity
                    <= crews@[j].capacity_max,
            forall|j: int|
                0 <= j < ds@.len() ==> (#[trigger] ds@[j]).difficulty >= 0,
            crews_from(crews0, ds2, res2, dt, k, 0) == ({
                let rem = crews_from(crews@, ds@, *res, dt, k, i as int);
                (rem.0, rem.1, rem.2, sat_add_spec(crew_total as int, rem.3))
            }),
            // pointwise preservation vs the loop entry state, for the ensures
            crews@.len() == crews0.len(),
            forall|j: int|
                0 <= j < crews0.len() ==> {
                    &&& (#[trigger] crews@[j]).efficiency == crews0[j].efficiency
                    &&& crews@[j].input_type == crews0[j].input_type
                    &&& crews@[j].output_type == crews0[j].output_type
                    &&& crews@[j].capacity_max == crews0[j].capacity_max
                },
            ds@.len() == ds2.len(),
            forall|j: int|
                0 <= j < ds2.len() ==> {
                    &&& (#[trigger] ds@[j]).deposit_type == ds2[j].deposit_type
                    &&& ds@[j].difficulty == ds2[j].difficulty
                    &&& ds@[j].amount <= ds2[j].amount
                },
            match res2 {
                Some(r) => {
                    &&& *res is Some
                    &&& res->0.resource_type == r.resource_type
                    &&& res->0.difficulty == r.difficulty
                    &&& res->0.amount >= r.amount
                },
                None => *res is None,
            },
        decreases n - i,
    {
        let ghost pre_crews = crews@;
        let ghost pre_ds = ds@;
        let ghost pre_res = *res;
        let ghost pre_total = crew_total;
        let c: Manned = crews[i];
        let out = extract_core(
            c.efficiency,
            c.input_type,
            c.output_type,
            c.capacity,
            c.capacity_max,
            ds,
            res,
            dt,
            k,
        );
        crews.set(i, Manned { capacity: out.0, ..c });
        proof {
            let u = unit_after(
                c.efficiency,
                c.input_type,
                c.output_type,
                c.capacity,
                c.capacity_max,
                pre_ds,
                pre_res,
                dt,
                k,
            );
            let rest = crews_from(crews@, ds@, *res, dt, k, i + 1);
            assert(crews_from(pre_crews, pre_ds, pre_res, dt, k, i as int) == (
                rest.0,
                rest.1,
                rest.2,
                sat_add_spec(u.3, rest.3),
            ));
            lemma_crews_total_bounded(crews@, ds@, *res, dt, k, i + 1);
            lemma_sat_add_assoc(pre_total as int, u.3, rest.3);
        }
        crew_total = sat_add(crew_total, out.1);
        i = i + 1;
    }
    proof {
        assert(crews_from(crews@, ds@, *res, dt, k, n as int) == (
            crews@,
            ds@,
            *res,
            0int,
        ));
    }
    sat_add(x0, crew_total)
}

/// Manned mining touches entity `e` when it has both crews and deposits.
pub open spec fn manned_active(
    mv: Seq<Option<Seq<Manned>>>,
    dv: Seq<Option<Seq<Deposit>>>,
    e: int,
) -> bool {
    &&& 0 <= e < mv.len() && mv[e] is Some
    &&& 0 <= e < dv.len() && dv[e] is Some
}

/// What manned mining does to entity `e`, over the old table views.
pub open spec fn manned_at(
    mv: Seq<Option<Seq<Manned>>>,
    sv: Seq<Option<Mine>>,
    dv: Seq<Option<Seq<Deposit>>>,
    rv: Seq<Option<Resource>>,
    dt: u64,
    k: u64,
    e: int,
) -> (Seq<Manned>, Option<Mine>, Seq<Deposit>, Option<Resource>, int) {
    manned_entity_after(mv[e]->0, opt_at(sv, e), dv[e]->0, opt_at(rv, e), dt, k)
}

/// The mines table after the manned pass.
pub open spec fn mines_after_manned(
    mv: Seq<Option<Seq<Manned>>>,
    sv: Seq<Option<Mine>>,
    dv: Seq<Option<Seq<Deposit>>>,
    rv: Seq<Option<Resource>>,
    dt: u64,
    k: u64,
) -> Seq<Option<Seq<Manned>>> {
    Seq::new(
        mv.len(),
        |e: int|
            if manned_active(mv, dv, e) {
                Some(manned_at(mv, sv, dv, rv, dt, k, e).0)
            } else {
                mv[e]
            },
    )
}

/// The mine-structure table after the manned pass.
pub open spec fn structs_after_manned(
    mv: Seq<Option<Seq<Manned>>>,
    sv: Seq<Option<Mine>>,
    dv: Seq<Option<Seq<Deposit>>>,
    rv: Seq<Option<Resource>>,
    dt: u64,
    k: u64,
) -> Seq<Option<Mine>> {
    Seq::new(
        sv.len(),
        |e: int|
            if manned_active(mv, dv, e) {
                manned_at(mv, sv, dv, rv, dt, k, e).1
            } else {
                sv[e]
            },
    )
}

/// The deposits table after the manned pass.
pub open spec fn deposits_after_manned(
    mv: Seq<Option<Seq<Manned>>>,
    sv: Seq<Option<Mine>>,
    dv: Seq<Option<Seq<Deposit>>>,
    rv: Seq<Option<Resource>>,
    dt: u64,
    k: u64,
) -> Seq<Option<Seq<Deposit>>> {
    Seq::new(
        dv.len(),
        |e: int|
            if manned_active(mv, dv, e) {
                Some(manned_at(mv, sv, dv, rv, dt, k, e).2)
            } else {
                dv[e]
            },
    )
}

/// The resource table after the manned pass.
pub open spec fn resources_after_manned(
    mv: Seq<Option<Seq<Manned>>>,
    sv: Seq<Option<Mine>>,
    dv: Seq<Option<Seq<Deposit>>>,
    rv: Seq<Option<Resource>>,
    dt: u64,
    k: u64,
) -> Seq<Option<Resource>> {
    Seq::new(
        rv.len(),
        |e: int|
            if manned_active(mv, dv, e) {
                manned_at(mv, sv, dv, rv, dt, k, e).3
            } else {
                rv[e]
            },
    )
}

/// Units extracted per entity by the manned pass, the mining byproduct.
pub open spec fn byproducts_manned(
    mv: Seq<Option<Seq<Manned>>>,
    sv: Seq<Option<Mine>>,
    dv: Seq<Option<Seq<Deposit>>>,
    rv: Seq<Option<Resource>>,
    dt: u64,
    k: u64,
    n: nat,
) -> Seq<int> {
    Seq::new(
        n,
        |e: int|
            if manned_active(mv, dv, e) {
                manned_at(mv, sv, dv, rv, dt, k, e).4
            } else {
                0
            },
    )
}

/// The Mining System (manned): one pass over the first `n` entities.
/// Returns the per-entity extracted totals.
#[verifier::loop_isolation(false)]
pub fn manned_mining_system(
    n: usize,
    mines: &mut Table<Mines>,
    structs: &mut Table<Mine>,
    deposits: &mut Table<Deposits>,
    resources: &mut Table<Resource>,
    dt: u64,
    k: u64,
) -> (byp: Vec<u64>)
    requires
        old(mines)@.len() <= n,
        old(structs)@.len() <= n,
        old(deposits)@.len() <= n,
        old(resources)@.len() <= n,
        forall|e: int|
            0 <= e < old(mines)@.len() && old(mines)@[e] is Some ==> crews_mined_from(
                (#[trigger] old(mines)@[e])->0.manned@,
                old(mines)@[e]->0.manned@,
            ),
        forall|e: int|
            0 <= e < old(structs)@.len() && old(structs)@[e] is Some ==> struct_mined_from(
                #[trigger] old(structs)@[e],
                old(structs)@[e],
            ),
        forall|e: int|
            0 <= e < old(deposits)@.len() && old(deposits)@[e] is Some ==> deposits_nonneg(
                (#[trigger] old(deposits)@[e])->0.natural@,
            ),
    ensures
        byp@.len() == n,
        mines_view(final(mines)@) == mines_after_manned(
            mines_view(old(mines)@),
            old(structs)@,
            deposits_view(old(deposits)@),
            old(resources)@,
            dt,
            k,
        ),
        final(structs)@ == structs_after_manned(
            mines_view(old(mines)@),
            old(structs)@,
            deposits_view(old(deposits)@),
            old(resources)@,
            dt,
            k,
        ),
        deposits_view(final(deposits)@) == deposits_after_manned(
            mines_view(old(mines)@),
            old(structs)@,
            deposits_view(old(deposits)@),
            old(resources)@,
            dt,
            k,
        ),
        final(resources)@ == resources_after_manned(
            mines_view(old(mines)@),
            old(structs)@,
            deposits_view(old(deposits)@),
            old(resources)@,
            dt,
            k,
        ),
        forall|e: int|
            0 <= e < n ==> #[trigger] byp@[e] as int == byproducts_manned(
                mines_view(old(mines)@),
                old(structs)@,
                deposits_view(old(deposits)@),
                old(resources)@,
                dt,
                k,
                n as nat,
            )[e],
        final(mines)@.len() == old(mines)@.len(),
        final(structs)@.len() == old(structs)@.len(),
        final(deposits)@.len() == old(deposits)@.len(),
        final(resources)@.len() == old(resources)@.len(),
        forall|e: int|
            0 <= e < old(mines)@.len() ==> ((#[trigger] final(mines)@[e]) is Some <==> old(
                mines,
            )@[e] is Some),
        forall|e: int|
            0 <= e < old(mines)@.len() && old(mines)@[e] is Some ==> crews_mined_from(
                (#[trigger] old(mines)@[e])->0.manned@,
                final(mines)@[e]->0.manned@,
            ),
        forall|e: int|
            0 <= e < old(structs)@.len() ==> struct_mined_from(
                #[trigger] old(structs)@[e],
                final(structs)@[e],
            ),
        forall|e: int|
            0 <= e < old(deposits)@.len() ==> ((#[trigger] final(deposits)@[e]) is Some <==> old(
                deposits,
            )@[e] is Some),
        forall|e: int|
            0 <= e < old(deposits)@.len() && old(deposits)@[e] is Some ==> deposits_mined_from(
                (#[trigger] old(deposits)@[e])->0.natural@,
                final(deposits)@[e]->0.natural@,
            ),
        forall|e: int|
            0 <= e < old(resources)@.len() ==> resource_credited_from(
                #[trigger] old(resources)@[e],
                final(resources)@[e],
            ),
{
    let ghost mv0 = mines_view(old(mines)@);
    let ghost sv0 = old(structs)@;
    let ghost dv0 = deposits_view(old(deposits)@);
    let ghost rv0 = old(resources)@;
    let mut byp: Vec<u64> = Vec::new();
    let mut e: usize = 0;
    while e < n
        invariant
            e <= n,
            byp@.len() == e,
            mines@.len() == mv0.len() <= n,
            structs@.len() == sv0.len() <= n,
            deposits@.len() == dv0.len() <= n,
            resources@.len() == rv0.len() <= n,
            mv0 == mines_view(old(mines)@),
            sv0 == old(structs)@,
            dv0 == deposits_view(old(deposits)@),
            rv0 == old(resources)@,
            forall|i: int| e <= i < mines@.len() ==> mines@[i] == old(mines)@[i],
            forall|i: int| e <= i < structs@.len() ==> structs@[i] == old(structs)@[i],
            forall|i: int| e <= i < deposits@.len() ==> deposits@[i] == old(deposits)@[i],
            forall|i: int| e <= i < resources@.len() ==> resources@[i] == old(resources)@[i],
            forall|i: int|
                0 <= i < e && i < mines@.len() ==> #[trigger] mines_view(mines@)[i]
                    == mines_after_manned(mv0, sv0, dv0, rv0, dt, k)[i],
            forall|i: int|
                0 <= i < e && i < structs@.len() ==> #[trigger] structs@[i] == structs_after_manned(
                    mv0,
                    sv0,
                    dv0,
                    rv0,
                    dt,
                    k,
                )[i],
            forall|i: int|
                0 <= i < e && i < deposits@.len() ==> #[trigger] deposits_view(deposits@)[i]
                    == deposits_after_manned(mv0, sv0, dv0, rv0, dt, k)[i],
            forall|i: int|
                0 <= i < e && i < resources@.len() ==> #[trigger] resources@[i]
                    == resources_after_manned(mv0, sv0, dv0, rv0, dt, k)[i],
            forall|i: int|
                0 <= i < e ==> #[trigger] byp@[i] as int == byproducts_manned(
                    mv0,
                    sv0,
                    dv0,
                    rv0,
                    dt,
                    k,
                    n as nat,
                )[i],
            forall|i: int|
                0 <= i < mines@.len() ==> ((#[trigger] mines@[i]) is Some <==> old(
                    mines,
                )@[i] is Some),
            forall|i: int|
                0 <= i < mines@.len() && old(mines)@[i] is Some ==> crews_mined_from(
                    (#[trigger] old(mines)@[i])->0.manned@,
                    mines@[i]->0.manned@,
                ),
            forall|i: int|
                0 <= i < structs@.len() ==> struct_mined_from(
                    #[trigger] old(structs)@[i],
                    structs@[i],
                ),
            forall|i: int|
                0 <= i < deposits@.len() ==> ((#[trigger] deposits@[i]) is Some <==> old(
                    deposits,
                )@[i] is Some),
            forall|i: int|
                0 <= i < deposits@.len() && old(deposits)@[i] is Some ==> deposits_mined_from(
                    (#[trigger] old(deposits)@[i])->0.natural@,
                    deposits@[i]->0.natural@,
                ),
            forall|i: int|
                0 <= i < resources@.len() ==> resource_credited_from(
                    #[trigger] old(resources)@[i],
                    resources@[i],
                ),
        decreases n - e,
    {
        let ghost mines_pre = mines@;
        let ghost deposits_pre = deposits@;
        let ms_opt = mines.take(e);
        match ms_opt {
            Some(ms) => {
                let ds_opt = deposits.take(e);
                match ds_opt {
                    Some(dsv) => {
                        let mut st_opt: Option<Mine> = structs.take(e);
                        let mut res_opt: Option<Resource> = resources.take(e);
                        let Mines { manned: mut crews } = ms;
                        let Deposits { natural: mut dlist } = dsv;
                        proof {
                            assert(crews@ == mv0[e as int]->0);
                            assert(dlist@ == dv0[e as int]->0);
                            assert(st_opt == opt_at(sv0, e as int));
                            assert(res_opt == opt_at(rv0, e as int));
                            assert(old(deposits)@[e as int] is Some);
                            assert(deposits_nonneg(old(deposits)@[e as int]->0.natural@));
                            assert(crews_mined_from(
                                old(mines)@[e as int]->0.manned@,
                                old(mines)@[e as int]->0.manned@,
                            ));
                            assert(forall|j: int|
                                0 <= j < crews@.len() ==> (#[trigger] crews@[j]).capacity
                                    <= crews@[j].capacity_max);
                            if st_opt is Some {
                                assert(e < old(structs)@.len());
                                assert(struct_mined_from(
                                    old(structs)@[e as int],
                                    old(structs)@[e as int],
                                ));
                            }
                        }
                        let x = mine_entity_manned(
                            &mut crews,
                            &mut st_opt,
                            &mut dlist,
                            &mut res_opt,
                            dt,
                            k,
                        );
                        let ghost m = manned_at(mv0, sv0, dv0, rv0, dt, k, e as int);
                        mines.set(e, Mines { manned: crews });
                        deposits.set(e, Deposits { natural: dlist });
                        match st_opt {
                            Some(m) => structs.set(e, m),
                            None => {},
                        }
                        match res_opt {
                            Some(r) => resources.set(e, r),
                            None => {},
                        }
                        byp.push(x);
                        proof {
                            assert(manned_active(mv0, dv0, e as int));
                            assert(mines_view(mines@)[e as int] == Some(m.0));
                            assert(deposits_view(deposits@)[e as int] == Some(m.2));
                            assert(e < structs@.len() ==> structs@[e as int] == m.1);
                            assert(e < resources@.len() ==> resources@[e as int] == m.3);
                            assert(byp@[e as int] as int == m.4);
                        }
                    },
                    None => {
                        mines.set(e, ms);
                        byp.push(0);
                        proof {
                            assert(!manned_active(mv0, dv0, e as int));
                            assert(e < mines@.len() ==> mines_view(mines@)[e as int] == mv0[e as int]);
                            assert(e < deposits@.len() ==> deposits_view(deposits@)[e as int]
                                == dv0[e as int]);
                        }
                    },
                }
            },
            None => {
                byp.push(0);
                proof {
                    assert(!manned_active(mv0, dv0, e as int));
                    assert(e < mines@.len() ==> mines_view(mines@)[e as int] == mv0[e as int]);
                    assert(e < deposits@.len() ==> deposits_view(deposits@)[e as int]
                        == dv0[e as int]);
                }
            },
        }
        proof {
            assert forall|i: int|
                0 <= i < e && i < mines@.len() implies #[trigger] mines_view(mines@)[i]
                == mines_after_manned(mv0, sv0, dv0, rv0, dt, k)[i] by {
                assert(mines@[i] == mines_pre[i]);
                assert(mines_view(mines@)[i] == mines_view(mines_pre)[i]);
            }
            assert forall|i: int|
                0 <= i < e && i < deposits@.len() implies #[trigger] deposits_view(deposits@)[i]
                == deposits_after_manned(mv0, sv0, dv0, rv0, dt, k)[i] by {
                assert(deposits@[i] == deposits_pre[i]);
                assert(deposits_view(deposits@)[i] == deposits_view(deposits_pre)[i]);
            }
        }
        e = e + 1;
    }
    proof {
        assert(mines_view(mines@) =~= mines_after_manned(mv0, sv0, dv0, rv0, dt, k));
        assert(structs@ =~= structs_after_manned(mv0, sv0, dv0, rv0, dt, k));
        assert(deposits_view(deposits@) =~= deposits_after_manned(mv0, sv0, dv0, rv0, dt, k));
        assert(resources@ =~= resources_after_manned(mv0, sv0, dv0, rv0, dt, k));
    }
    byp
}

/// Automated mining touches entity `e` when it has both an automated
/// mine and deposits.
pub open spec fn auto_active(
    av: Seq<Option<AutomatedMine>>,
    dv: Seq<Option<Seq<Deposit>>>,
    e: int,
) -> bool {
    &&& 0 <= e < av.len() && av[e] is Some
    &&& 0 <= e < dv.len() && dv[e] is Some
}

/// What the automated mine of entity `e` does: the shared extraction
/// algorithm with no crew requirement and no buffer bound.
pub open spec fn auto_at(
    av: Seq<Option<AutomatedMine>>,
    dv: Seq<Option<Seq<Deposit>>>,
    rv: Seq<Option<Resource>>,
    dt: u64,
    k: u64,
    e: int,
) -> (Seq<Deposit>, Option<Resource>, int, int) {
    let m = av[e]->0;
    unit_after(
        m.efficiency,
        m.input_type,
        m.output_type,
        0,
        u64::MAX,
        dv[e]->0,
        opt_at(rv, e),
        dt,
        k,
    )
}

/// The deposits table after the automated pass.
pub open spec fn deposits_after_auto(
    av: Seq<Option<AutomatedMine>>,
    dv: Seq<Option<Seq<Deposit>>>,
    rv: Seq<Option<Resource>>,
    dt: u64,
    k: u64,
) -> Seq<Option<Seq<Deposit>>> {
    Seq::new(
        dv.len(),
        |e: int|
            if auto_active(av, dv, e) {
                Some(auto_at(av, dv, rv, dt, k, e).0)
            } else {
                dv[e]
            },
    )
}

/// The resource table after the automated pass.
pub open spec fn resources_after_auto(
    av: Seq<Option<AutomatedMine>>,
    dv: Seq<Option<Seq<Deposit>>>,
    rv: Seq<Option<Resource>>,
    dt: u64,
    k: u64,
) -> Seq<Option<Resource>> {
    Seq::new(
        rv.len(),
        |e: int|
            if auto_active(av, dv, e) {
                auto_at(av, dv, rv, dt, k, e).1
            } else {
                rv[e]
            },
    )
}

/// Units extracted per entity by the automated pass.
pub open spec fn byproducts_auto(
    av: Seq<Option<AutomatedMine>>,
    dv: Seq<Option<Seq<Deposit>>>,
    rv: Seq<Option<Resource>>,
    dt: u64,
    k: u64,
    n: nat,
) -> Seq<int> {
    Seq::new(
        n,
        |e: int|
            if auto_active(av, dv, e) {
                auto_at(av, dv, rv, dt, k, e).3
            } else {
                0
            },
    )
}

/// The Automated Mining System: one pass over the first `n` entities.
/// Adds each entity's extracted total into `byp`, the running byproduct
/// tally handed on to the atmosphere system.
#[verifier::loop_isolation(false)]
pub fn automated_mining_system(
    n: usize,
    autos: &Table<AutomatedMine>,
    deposits: &mut Table<Deposits>,
    resources: &mut Table<Resource>,
    dt: u64,
    k: u64,
    byp: &mut Vec<u64>,
)
    requires
        autos@.len() <= n,
        old(deposits)@.len() <= n,
        old(resources)@.len() <= n,
        old(byp)@.len() == n,
        forall|e: int|
            0 <= e < old(deposits)@.len() && old(deposits)@[e] is Some ==> deposits_nonneg(
                (#[trigger] old(deposits)@[e])->0.natural@,
            ),
    ensures
        final(byp)@.len() == n,
        deposits_view(final(deposits)@) == deposits_after_auto(
            autos@,
            deposits_view(old(deposits)@),
            old(resources)@,
            dt,
            k,
        ),
        final(resources)@ == resources_after_auto(
            autos@,
            deposits_view(old(deposits)@),
            old(resources)@,
            dt,
            k,
        ),
        forall|e: int|
            0 <= e < n ==> #[trigger] final(byp)@[e] as int == sat_add_spec(
                old(byp)@[e] as int,
                byproducts_auto(
                    autos@,
                    deposits_view(old(deposits)@),
                    old(resources)@,
                    dt,
                    k,
                    n as nat,
                )[e],
            ),
        final(deposits)@.len() == old(deposits)@.len(),
        final(resources)@.len() == old(resources)@.len(),
        forall|e: int|
            0 <= e < old(deposits)@.len() ==> ((#[trigger] final(deposits)@[e]) is Some <==> old(
                deposits,
            )@[e] is Some),
        forall|e: int|
            0 <= e < old(deposits)@.len() && old(deposits)@[e] is Some ==> deposits_mined_from(
                (#[trigger] old(deposits)@[e])->0.natural@,
                final(deposits)@[e]->0.natural@,
            ),
        forall|e: int|
            0 <= e < old(resources)@.len() ==> resource_credited_from(
                #[trigger] old(resources)@[e],
                final(resources)@[e],
            ),
{
    let ghost av0 = autos@;
    let ghost dv0 = deposits_view(old(deposits)@);
    let ghost rv0 = old(resources)@;
    let mut e: usize = 0;
    while e < n
        invariant
            e <= n,
            byp@.len() == n,
            deposits@.len() == dv0.len() <= n,
            resources@.len() == rv0.len() <= n,
            forall|i: int| e <= i < deposits@.len() ==> deposits@[i] == old(deposits)@[i],
            forall|i: int| e <= i < resources@.len() ==> resources@[i] == old(resources)@[i],
            forall|i: int| e <= i < n ==> byp@[i] == old(byp)@[i],
            forall|i: int|
                0 <= i < e && i < deposits@.len() ==> #[trigger] deposits_view(deposits@)[i]
                    == deposits_after_auto(av0, dv0, rv0, dt, k)[i],
            forall|i: int|
                0 <= i < e && i < resources@.len() ==> #[trigger] resources@[i]
                    == resources_after_auto(av0, dv0, rv0, dt, k)[i],
            forall|i: int|
                0 <= i < e ==> #[trigger] byp@[i] as int == sat_add_spec(
                    old(byp)@[i] as int,
                    byproducts_auto(av0, dv0, rv0, dt, k, n as nat)[i],
                ),
            forall|i: int|
                0 <= i < deposits@.len() ==> ((#[trigger] deposits@[i]) is Some <==> old(
                    deposits,
                )@[i] is Some),
            forall|i: int|
                0 <= i < deposits@.len() && old(deposits)@[i] is Some ==> deposits_mined_from(
                    (#[trigger] old(deposits)@[i])->0.natural@,
                    deposits@[i]->0.natural@,
                ),
            forall|i: int|
                0 <= i < resources@.len() ==> resource_credited_from(
                    #[trigger] old(resources)@[i],
                    resources@[i],
                ),
        decreases n - e,
    {
        let ghost deposits_pre = deposits@;
        let am_opt: Option<&AutomatedMine> = autos.get(e);
        match am_opt {
            Some(am) => {
                let am: AutomatedMine = *am;
                let ds_opt = deposits.take(e);
                match ds_opt {
                    Some(dsv) => {
                        let mut res_opt: Option<Resource> = resources.take(e);
                        let Deposits { natural: mut dlist } = dsv;
                        proof {
                            assert(dlist@ == dv0[e as int]->0);
                            assert(res_opt == opt_at(rv0, e as int));
                            assert(old(deposits)@[e as int] is Some);
                            assert(deposits_nonneg(old(deposits)@[e as int]->0.natural@));
                        }
                        let out = extract_core(
                            am.efficiency,
                            am.input_type,
                            am.output_type,
                            0,
                            u64::MAX,
                            &mut dlist,
                            &mut res_opt,
                            dt,
                            k,
                        );
                        let ghost u = auto_at(av0, dv0, rv0, dt, k, e as int);
                        deposits.set(e, Deposits { natural: dlist });
                        match res_opt {
                            Some(r) => resources.set(e, r),
                            None => {},
                        }
                        let prev: u64 = byp[e];
                        let bumped: u64 = sat_add(prev, out.1);
                        byp.set(e, bumped);
                        proof {
                            assert(auto_active(av0, dv0, e as int));
                            assert(deposits_view(deposits@)[e as int] == Some(u.0));
                            assert(e < resources@.len() ==> resources@[e as int] == u.1);
                            assert(byp@[e as int] as int == sat_add_spec(
                                old(byp)@[e as int] as int,
                                u.3,
                            ));
                        }
                    },
                    None => {
                        proof {
                            assert(!auto_active(av0, dv0, e as int));
                        }
                    },
                }
            },
            None => {
                proof {
                    assert(!auto_active(av0, dv0, e as int));
                }
            },
        }
        proof {
            assert forall|i: int|
                0 <= i < e && i < deposits@.len() implies #[trigger] deposits_view(deposits@)[i]
                == deposits_after_auto(av0, dv0, rv0, dt, k)[i] by {
                assert(deposits@[i] == deposits_pre[i]);
                assert(deposits_view(deposits@)[i] == deposits_view(deposits_pre)[i]);
            }
        }
        e = e + 1;
    }
    proof {
        assert(deposits_view(deposits@) =~= deposits_after_auto(av0, dv0, rv0, dt, k));
        assert(resources@ =~= resources_after_auto(av0, dv0, rv0, dt, k));
    }
}

} // verus!
