//! End-to-end tests of the simulation core: the documented scenarios,
//! the edge cases of each system, and every construction-time error.

use celestial_sim::components::{
    Atmosphere, AutomatedMine, Consistency, Deposit, Deposits, Housing, Manned, Mine, MineableTag,
    Mines, Population, Position, Temperature, Velocity, FULL_TURN,
};
use celestial_sim::params::{Params, SimError, BORONITE};
use celestial_sim::storage::Table;
use celestial_sim::world::World;

fn world() -> World {
    World::new(Params::defaults()).unwrap()
}

fn crew(efficiency: u64, capacity: u64, capacity_max: u64) -> Manned {
    Manned { efficiency, input_type: BORONITE, output_type: BORONITE, capacity, capacity_max }
}

#[test]
fn two_crews_share_a_deposit() {
    // A deposit of 15, mined by two crews of efficiency 2 for one tick
    // with no difficulty penalty: 4 units leave the deposit, and the
    // crew buffers hold 2 each.
    let mut w = world();
    let e = w.create_entity();
    w.attach_deposits(e, Deposits { natural: vec![Deposit { deposit_type: BORONITE, amount: 15, difficulty: 0 }] })
        .unwrap();
    w.attach_mines(e, Mines { manned: vec![crew(2, 0, 100), crew(2, 0, 100)] }).unwrap();
    w.run_ticks(1, 1);
    let d = w.deposits_of(e).unwrap();
    assert_eq!(d.natural[0].amount, 11);
    let m = w.mines_of(e).unwrap();
    assert_eq!(m.manned[0].capacity, 2);
    assert_eq!(m.manned[1].capacity, 2);
    assert_eq!(m.manned[0].capacity + m.manned[1].capacity, 4);
}

#[test]
fn full_buffer_extracts_nothing() {
    // A mine whose buffer is at its ceiling is idle, whatever the
    // deposit holds.
    let mut w = world();
    let e = w.create_entity();
    w.attach_deposits(e, Deposits { natural: vec![Deposit { deposit_type: BORONITE, amount: 500, difficulty: 0 }] })
        .unwrap();
    w.attach_mines(e, Mines { manned: vec![crew(10, 100, 100)] }).unwrap();
    w.run_ticks(1, 5);
    assert_eq!(w.deposits_of(e).unwrap().natural[0].amount, 500);
    assert_eq!(w.mines_of(e).unwrap().manned[0].capacity, 100);
}

#[test]
fn population_grows_toward_capacity_without_overshoot() {
    // Housing of capacity 1_000_000 (ceiling 2_000_000) and quality 50
    // under full suitability: the count climbs toward 1_000_000 and
    // never passes it.
    let mut w = world();
    let e = w.create_entity();
    w.attach_housing(e, Housing { capacity: 1_000_000, capacity_max: 2_000_000, quality: 50 })
        .unwrap();
    w.attach_population(e, Population { count: 0 }).unwrap();
    w.tick(1);
    // target 1_000_000, step = 1_000_000 * 50 / 200
    assert_eq!(w.population(e).unwrap().count, 250_000);
    w.tick(1);
    assert_eq!(w.population(e).unwrap().count, 437_500);
    let mut last = 437_500;
    for _ in 0..300 {
        w.tick(1);
        let c = w.population(e).unwrap().count;
        assert!(c <= 1_000_000);
        assert!(c >= last);
        last = c;
    }
}

#[test]
fn stationary_body_keeps_its_angle() {
    let mut w = world();
    let e = w.create_entity();
    w.attach_position(e, Position { r: 200, angle: 123 }).unwrap();
    w.attach_velocity(e, Velocity { angle: 0 });
    w.run_ticks(1, 50);
    let p = w.position(e).unwrap();
    assert_eq!(p.angle, 123);
    assert_eq!(p.r, 200);
}

#[test]
fn orbit_advances_and_wraps() {
    let mut w = world();
    let e = w.create_entity();
    w.attach_position(e, Position { r: 10, angle: 0 }).unwrap();
    w.attach_velocity(e, Velocity { angle: 100 });
    w.tick(2);
    assert_eq!(w.position(e).unwrap().angle, 200);
    let mut w2 = world();
    let f = w2.create_entity();
    w2.attach_position(f, Position { r: 10, angle: FULL_TURN - 1 }).unwrap();
    w2.attach_velocity(f, Velocity { angle: 1 });
    w2.tick(1);
    assert_eq!(w2.position(f).unwrap().angle, 0);
}

#[test]
fn zero_ticks_change_nothing() {
    let mut w = world();
    let e = w.create_entity();
    w.attach_position(e, Position { r: 7, angle: 99 }).unwrap();
    w.attach_velocity(e, Velocity { angle: 3 });
    w.attach_population(e, Population { count: 42 }).unwrap();
    w.attach_deposits(e, Deposits { natural: vec![Deposit { deposit_type: BORONITE, amount: 8, difficulty: 1 }] })
        .unwrap();
    w.attach_mines(e, Mines { manned: vec![crew(5, 1, 9)] }).unwrap();
    w.run_ticks(1, 0);
    assert_eq!(w.position(e).unwrap(), Position { r: 7, angle: 99 });
    assert_eq!(w.velocity(e).unwrap(), Velocity { angle: 3 });
    assert_eq!(w.population(e).unwrap(), Population { count: 42 });
    assert_eq!(w.deposits_of(e).unwrap().natural[0].amount, 8);
    assert_eq!(w.mines_of(e).unwrap().manned[0].capacity, 1);
}

#[test]
fn population_breathes_co2() {
    // 5000 people shift 5 points of oxygen into co2 in one tick; the
    // gas sum is unchanged and pressure climbs one step toward its
    // equilibrium.
    let mut w = world();
    let e = w.create_entity();
    w.attach_atmosphere(
        e,
        Atmosphere {
            consistency: Consistency { oxygen: 50, nitrogen: 30, co2: 10 },
            pressure: 0,
        },
    )
    .unwrap();
    w.attach_population(e, Population { count: 5000 }).unwrap();
    w.tick(1);
    let a = w.atmosphere(e).unwrap();
    assert_eq!(a.consistency.oxygen, 45);
    assert_eq!(a.consistency.co2, 15);
    assert_eq!(a.consistency.nitrogen, 30);
    assert_eq!(a.consistency.oxygen + a.consistency.nitrogen + a.consistency.co2, 90);
    assert_eq!(a.pressure, 1);
}

#[test]
fn atmosphere_shares_stay_in_range() {
    let mut w = world();
    let e = w.create_entity();
    w.attach_atmosphere(
        e,
        Atmosphere { consistency: Consistency { oxygen: 3, nitrogen: 0, co2: 97 }, pressure: 50 },
    )
    .unwrap();
    w.attach_population(e, Population { count: 4_000_000 }).unwrap();
    for _ in 0..10 {
        w.tick(1);
        let a = w.atmosphere(e).unwrap();
        let c = a.consistency;
        assert!(c.oxygen <= 100 && c.nitrogen <= 100 && c.co2 <= 100);
        assert!(c.oxygen + c.nitrogen + c.co2 <= 100);
    }
    // all the oxygen is gone, none of it lost to rounding
    let a = w.atmosphere(e).unwrap();
    assert_eq!(a.consistency.oxygen, 0);
    assert_eq!(a.consistency.co2, 100);
}

#[test]
fn idle_mine_without_matching_deposit() {
    let mut w = world();
    let e = w.create_entity();
    w.attach_deposits(e, Deposits { natural: vec![Deposit { deposit_type: 2, amount: 9, difficulty: 0 }] })
        .unwrap();
    w.attach_mines(e, Mines { manned: vec![crew(5, 0, 100)] }).unwrap();
    w.tick(1);
    assert_eq!(w.deposits_of(e).unwrap().natural[0].amount, 9);
    assert_eq!(w.mines_of(e).unwrap().manned[0].capacity, 0);
}

#[test]
fn exhausted_deposit_is_skipped_not_removed() {
    let mut w = world();
    let e = w.create_entity();
    w.attach_deposits(
        e,
        Deposits {
            natural: vec![
                Deposit { deposit_type: BORONITE, amount: 0, difficulty: 0 },
                Deposit { deposit_type: BORONITE, amount: 5, difficulty: 0 },
            ],
        },
    )
    .unwrap();
    w.attach_mines(e, Mines { manned: vec![crew(3, 0, 100)] }).unwrap();
    w.tick(1);
    let d = w.deposits_of(e).unwrap();
    assert_eq!(d.natural.len(), 2);
    assert_eq!(d.natural[0].amount, 0);
    assert_eq!(d.natural[1].amount, 2);
}

#[test]
fn automated_mine_needs_no_crew_and_no_buffer() {
    let mut w = world();
    let e = w.create_entity();
    w.attach_deposits(e, Deposits { natural: vec![Deposit { deposit_type: BORONITE, amount: 5, difficulty: 0 }] })
        .unwrap();
    w.attach_automated_mine(e, AutomatedMine { efficiency: 7, input_type: BORONITE, output_type: BORONITE })
        .unwrap();
    w.attach_resource(
        e,
        celestial_sim::components::Resource { resource_type: BORONITE, amount: 0, difficulty: 0 },
    )
    .unwrap();
    w.tick(1);
    assert_eq!(w.deposits_of(e).unwrap().natural[0].amount, 0);
    assert_eq!(w.resource(e).unwrap().amount, 5);
}

#[test]
fn refining_credits_only_matching_stock() {
    let mut w = world();
    let e = w.create_entity();
    w.attach_deposits(e, Deposits { natural: vec![Deposit { deposit_type: 1, amount: 10, difficulty: 0 }] })
        .unwrap();
    let refiner = Manned { efficiency: 4, input_type: 1, output_type: 2, capacity: 0, capacity_max: 100 };
    w.attach_mines(e, Mines { manned: vec![refiner] }).unwrap();
    w.attach_resource(
        e,
        celestial_sim::components::Resource { resource_type: 2, amount: 1, difficulty: 0 },
    )
    .unwrap();
    w.tick(1);
    // input kind 1 refined into output kind 2, credited to the kind-2 stock
    assert_eq!(w.deposits_of(e).unwrap().natural[0].amount, 6);
    assert_eq!(w.mines_of(e).unwrap().manned[0].capacity, 4);
    assert_eq!(w.resource(e).unwrap().amount, 5);
}

#[test]
fn mismatched_stock_is_not_credited() {
    let mut w = world();
    let e = w.create_entity();
    w.attach_deposits(e, Deposits { natural: vec![Deposit { deposit_type: 1, amount: 10, difficulty: 0 }] })
        .unwrap();
    let refiner = Manned { efficiency: 4, input_type: 1, output_type: 2, capacity: 0, capacity_max: 100 };
    w.attach_mines(e, Mines { manned: vec![refiner] }).unwrap();
    w.attach_resource(
        e,
        celestial_sim::components::Resource { resource_type: 3, amount: 1, difficulty: 0 },
    )
    .unwrap();
    w.tick(1);
    assert_eq!(w.deposits_of(e).unwrap().natural[0].amount, 6);
    assert_eq!(w.resource(e).unwrap().amount, 1);
}

#[test]
fn difficulty_scales_extraction_down() {
    // rate = efficiency * dt / (1 + difficulty * k); with efficiency 8
    // and difficulty 3 under the default k = 1, one tick extracts 2.
    let mut w = world();
    let e = w.create_entity();
    w.attach_deposits(e, Deposits { natural: vec![Deposit { deposit_type: BORONITE, amount: 100, difficulty: 3 }] })
        .unwrap();
    w.attach_mines(e, Mines { manned: vec![crew(8, 0, 100)] }).unwrap();
    w.tick(1);
    assert_eq!(w.mines_of(e).unwrap().manned[0].capacity, 2);
    assert_eq!(w.deposits_of(e).unwrap().natural[0].amount, 98);
}

#[test]
fn mine_structure_works_only_with_crew() {
    let mut w = world();
    let e = w.create_entity();
    w.attach_deposits(e, Deposits { natural: vec![Deposit { deposit_type: BORONITE, amount: 50, difficulty: 0 }] })
        .unwrap();
    w.attach_mine(e, Mine { efficiency: 6, input_type: BORONITE, output_type: BORONITE, capacity: 0, capacity_max: 100 })
        .unwrap();
    // no crews: the structure stands idle
    w.attach_mines(e, Mines { manned: vec![] }).unwrap();
    w.tick(1);
    assert_eq!(w.mine_structure(e).unwrap().capacity, 0);
    assert_eq!(w.deposits_of(e).unwrap().natural[0].amount, 50);
    // with one crew present, the structure works first, then the crew
    let mut w2 = world();
    let f = w2.create_entity();
    w2.attach_deposits(f, Deposits { natural: vec![Deposit { deposit_type: BORONITE, amount: 50, difficulty: 0 }] })
        .unwrap();
    w2.attach_mine(f, Mine { efficiency: 6, input_type: BORONITE, output_type: BORONITE, capacity: 0, capacity_max: 100 })
        .unwrap();
    w2.attach_mines(f, Mines { manned: vec![crew(2, 0, 100)] }).unwrap();
    w2.tick(1);
    assert_eq!(w2.mine_structure(f).unwrap().capacity, 6);
    assert_eq!(w2.mines_of(f).unwrap().manned[0].capacity, 2);
    assert_eq!(w2.deposits_of(f).unwrap().natural[0].amount, 42);
}

#[test]
fn construction_consumes_stock() {
    // build_cost is 10 by default: a stock of 55 affords 5 units of new
    // capacity, and 5 units of stock remain.
    let mut w = world();
    let e = w.create_entity();
    w.attach_housing(e, Housing { capacity: 10, capacity_max: 100, quality: 0 }).unwrap();
    w.attach_resource(
        e,
        celestial_sim::components::Resource { resource_type: BORONITE, amount: 55, difficulty: 0 },
    )
    .unwrap();
    w.tick(1);
    assert_eq!(w.housing(e).unwrap().capacity, 15);
    assert_eq!(w.resource(e).unwrap().amount, 5);
}

#[test]
fn hostile_temperature_shrinks_population() {
    let mut w = world();
    let e = w.create_entity();
    w.attach_housing(e, Housing { capacity: 1_000_000, capacity_max: 2_000_000, quality: 50 })
        .unwrap();
    w.attach_population(e, Population { count: 1000 }).unwrap();
    w.attach_temperature(e, Temperature { value: 10_000 });
    w.tick(1);
    // suitability 0: target 0, step = 1000 * 50 / 200
    assert_eq!(w.population(e).unwrap().count, 750);
}

#[test]
fn saturating_extraction_at_the_largest_sizes() {
    let mut w = world();
    let e = w.create_entity();
    w.attach_deposits(
        e,
        Deposits { natural: vec![Deposit { deposit_type: BORONITE, amount: u64::MAX, difficulty: 0 }] },
    )
    .unwrap();
    w.attach_mines(e, Mines { manned: vec![crew(u64::MAX, 0, u64::MAX)] }).unwrap();
    w.tick(1);
    assert_eq!(w.mines_of(e).unwrap().manned[0].capacity, u64::MAX);
    assert_eq!(w.deposits_of(e).unwrap().natural[0].amount, 0);
}

#[test]
fn invalid_kind_is_rejected_at_construction() {
    let mut w = world();
    let e = w.create_entity();
    let bad_crew = Manned { efficiency: 1, input_type: -1, output_type: 1, capacity: 0, capacity_max: 1 };
    assert_eq!(
        w.attach_mines(e, Mines { manned: vec![bad_crew] }),
        Err(SimError::InvalidComponentKind)
    );
    let unknown = Manned { efficiency: 1, input_type: 1, output_type: 20, capacity: 0, capacity_max: 1 };
    assert_eq!(
        w.attach_mines(e, Mines { manned: vec![unknown] }),
        Err(SimError::InvalidComponentKind)
    );
    assert_eq!(
        w.attach_deposits(e, Deposits { natural: vec![Deposit { deposit_type: 20, amount: 1, difficulty: 0 }] }),
        Err(SimError::InvalidComponentKind)
    );
    assert_eq!(
        w.attach_automated_mine(e, AutomatedMine { efficiency: 1, input_type: -3, output_type: 1 }),
        Err(SimError::InvalidComponentKind)
    );
    assert_eq!(
        w.attach_resource(
            e,
            celestial_sim::components::Resource { resource_type: 20, amount: 0, difficulty: 0 },
        ),
        Err(SimError::InvalidComponentKind)
    );
}

#[test]
fn out_of_range_values_are_rejected_at_construction() {
    let mut w = world();
    let e = w.create_entity();
    assert_eq!(
        w.attach_housing(e, Housing { capacity: 10, capacity_max: 5, quality: 50 }),
        Err(SimError::OutOfRangeValue)
    );
    assert_eq!(
        w.attach_housing(e, Housing { capacity: 1, capacity_max: 5, quality: 101 }),
        Err(SimError::OutOfRangeValue)
    );
    let over = Manned { efficiency: 1, input_type: 1, output_type: 1, capacity: 9, capacity_max: 1 };
    assert_eq!(w.attach_mines(e, Mines { manned: vec![over] }), Err(SimError::OutOfRangeValue));
    assert_eq!(
        w.attach_deposits(e, Deposits { natural: vec![Deposit { deposit_type: 1, amount: 1, difficulty: -1 }] }),
        Err(SimError::OutOfRangeValue)
    );
    assert_eq!(
        w.attach_atmosphere(
            e,
            Atmosphere { consistency: Consistency { oxygen: 60, nitrogen: 60, co2: 0 }, pressure: 0 },
        ),
        Err(SimError::OutOfRangeValue)
    );
    assert_eq!(
        w.attach_position(e, Position { r: 1, angle: FULL_TURN }),
        Err(SimError::OutOfRangeValue)
    );
    // a population larger than the housing it joins
    w.attach_housing(e, Housing { capacity: 10, capacity_max: 20, quality: 5 }).unwrap();
    assert_eq!(
        w.attach_population(e, Population { count: 11 }),
        Err(SimError::OutOfRangeValue)
    );
    assert!(w.attach_population(e, Population { count: 10 }).is_ok());
}

#[test]
fn bad_tuning_is_rejected() {
    let mut p = Params::defaults();
    p.growth_div = 0;
    assert!(World::new(p).is_err());
    let mut p2 = Params::defaults();
    p2.n_resource_kinds = 0;
    assert!(World::new(p2).is_err());
}

#[test]
fn bare_entity_reads_back_empty() {
    let mut w = world();
    let e = w.create_entity();
    assert_eq!(w.entity_count(), 1);
    assert!(w.position(e).is_none());
    assert!(w.population(e).is_none());
    assert!(w.atmosphere(e).is_none());
    assert!(w.resource(e).is_none());
    assert!(w.deposits_of(e).is_none());
    assert!(!w.is_mineable(e));
    w.attach_mineable(e, MineableTag);
    assert!(w.is_mineable(e));
}

#[test]
fn buffers_never_pass_their_bound() {
    let mut w = world();
    let e = w.create_entity();
    w.attach_deposits(
        e,
        Deposits { natural: vec![Deposit { deposit_type: BORONITE, amount: 1000, difficulty: 0 }] },
    )
    .unwrap();
    w.attach_mines(e, Mines { manned: vec![crew(7, 0, 10), crew(9, 3, 12)] }).unwrap();
    for _ in 0..6 {
        w.tick(1);
        let m = w.mines_of(e).unwrap();
        for c in m.manned.iter() {
            assert!(c.capacity <= c.capacity_max);
        }
    }
    let m = w.mines_of(e).unwrap();
    assert_eq!(m.manned[0].capacity, 10);
    assert_eq!(m.manned[1].capacity, 12);
}

#[test]
fn storage_supports_mixed_access() {
    let mut t: Table<u64> = Table::new();
    assert_eq!(t.len(), 0);
    t.set(3, 30);
    t.set(1, 10);
    assert_eq!(t.len(), 4);
    assert_eq!(t.get(1), Some(&10));
    assert_eq!(t.get(2), None);
    assert_eq!(t.get(3), Some(&30));
    assert_eq!(t.get(9), None);
    let pairs = t.entries();
    assert_eq!(pairs, vec![(1, 10), (3, 30)]);
    assert_eq!(t.take(3), Some(30));
    assert_eq!(t.get(3), None);
    t.remove(1);
    assert_eq!(t.get(1), None);
    assert_eq!(t.entries(), vec![]);
}

#[test]
fn overwriting_a_component_replaces_it() {
    let mut w = world();
    let e = w.create_entity();
    w.attach_temperature(e, Temperature { value: -40 });
    assert_eq!(w.temperature(e).unwrap().value, -40);
    w.attach_temperature(e, Temperature { value: 15 });
    assert_eq!(w.temperature(e).unwrap().value, 15);
}

#[test]
fn deposits_only_ever_drain() {
    let mut w = world();
    let e = w.create_entity();
    w.attach_deposits(
        e,
        Deposits {
            natural: vec![
                Deposit { deposit_type: 1, amount: 37, difficulty: 1 },
                Deposit { deposit_type: 2, amount: 19, difficulty: 0 },
            ],
        },
    )
    .unwrap();
    w.attach_mines(e, Mines { manned: vec![crew(5, 0, 1000)] }).unwrap();
    w.attach_automated_mine(e, AutomatedMine { efficiency: 2, input_type: 2, output_type: 2 })
        .unwrap();
    let mut last = [37u64, 19u64];
    for _ in 0..20 {
        w.tick(1);
        let d = w.deposits_of(e).unwrap();
        assert_eq!(d.natural.len(), 2);
        for (i, dep) in d.natural.iter().enumerate() {
            assert!(dep.amount <= last[i]);
            last[i] = dep.amount;
        }
    }
    assert_eq!(last, [0, 0]);
}
