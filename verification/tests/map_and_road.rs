use crossy_multi_core::game::CoordPos;
use crossy_multi_core::game::LillipadId;
use crossy_multi_core::game::PreciseCoords;
use crossy_multi_core::map::river::River;
use crossy_multi_core::map::river::RiverSpawnTimes;
use crossy_multi_core::map::road::Car;
use crossy_multi_core::map::road::CarPublic;
use crossy_multi_core::map::road::Road;
use crossy_multi_core::map::road::CYCLE;
use crossy_multi_core::map::GameMap;
use crossy_multi_core::map::Row;
use crossy_multi_core::map::RowType;
use crossy_multi_core::math::div_floor;

fn road(cars: &[u32], half_width: u32, inverted: bool) -> Road {
    Road { cars0: cars.iter().map(|c| Car(*c)).collect(), y: 5, half_width, inverted }
}

#[test]
fn div_floor_rounds_down() {
    assert_eq!(div_floor(7, 2), 3);
    assert_eq!(div_floor(-7, 2), -4);
    assert_eq!(div_floor(-8, 2), -4);
    assert_eq!(div_floor(0, 5), 0);
    assert_eq!(div_floor(-1, 1000), -1);
}

#[test]
fn seed_of_a_name() {
    assert_eq!(GameMap::new("ac").get_seed(), 3106);
    assert_eq!(GameMap::new("").get_seed(), 0);
    assert_eq!(GameMap::new("a").get_seed(), 97);
    assert_eq!(GameMap::exact_seed(77).get_seed(), 77);
}

#[test]
fn car_drives_around_the_cycle() {
    assert_eq!(Car(0).drive(0), Car(0));
    assert_eq!(Car(100).drive(1_000_000), Car(1_000_100));
    assert_eq!(Car(7_999_999).drive(2), Car(1));
    assert_eq!(Car(5).drive(8_000_000), Car(5));
    assert_eq!(Car(5).drive(u32::MAX), Car((5 + (u32::MAX as u64 % 8_000_000)) as u32));
}

#[test]
fn window_maps_onto_the_screen() {
    let r = road(&[], 2_000_000, false);
    assert_eq!(r.realise_car(&Car(2_000_000)), 0);
    assert_eq!(r.realise_car(&Car(4_000_000)), 10_000);
    assert_eq!(r.realise_car(&Car(6_000_000)), 20_000);
    assert_eq!(r.realise_car(&Car(0)), -10_000);
    assert_eq!(r.realise_car(&Car(2_000_001)), 0);
    assert_eq!(r.realise_car(&Car(1_999_999)), -1);
    let inverted = road(&[], 2_000_000, true);
    assert_eq!(inverted.realise_car(&Car(2_000_000)), 20_000);
    assert_eq!(inverted.realise_car(&Car(6_000_000)), 0);
    let narrow = road(&[], 1_600_000, false);
    assert_eq!(narrow.realise_car(&Car(2_400_000)), 0);
    assert_eq!(narrow.realise_car(&Car(4_000_000)), 10_000);
    assert_eq!(narrow.transform_car(&Car(4_000_000)), CarPublic(10_000, 5, false));
}

#[test]
fn cars_beyond_the_screen_are_not_shown() {
    let r = road(&[0, 1_500_000, 4_000_000, 6_500_000, 7_000_000], 2_000_000, false);
    // columns -10, -2.5, 10, 22.5, 25
    assert_eq!(r.get_cars_onscreen(0), vec![Car(1_500_000), Car(4_000_000), Car(6_500_000)]);
    assert_eq!(
        r.get_cars_public(0),
        vec![CarPublic(-2_500, 5, false), CarPublic(10_000, 5, false), CarPublic(22_500, 5, false)]
    );
    assert_eq!(r.get_cars_public(500_000)[0], CarPublic(0, 5, false));
}

#[test]
fn collision_margin_is_four_thirds_of_a_tile() {
    // the car stands at column 11.3 and then at column 11.34
    let near = road(&[4_260_000], 2_000_000, false);
    assert!(near.collides_car(0, CoordPos::new(10, 5)));
    assert!(!near.collides_car(0, CoordPos::new(10, 6)));
    assert!(!near.collides_car(0, CoordPos::new(9, 5)));
    assert!(near.collides_car(0, CoordPos::new(12, 5)));
    let far = road(&[4_268_000], 2_000_000, false);
    assert!(!far.collides_car(0, CoordPos::new(10, 5)));
    // the same car a little earlier on its way
    let driven = road(&[4_068_000], 2_000_000, false);
    assert!(driven.collides_car(192_000, CoordPos::new(10, 5)));
    assert!(!driven.collides_car(200_000, CoordPos::new(10, 5)));
}

#[test]
fn comb_of_a_road_is_ordered_and_within_the_cycle() {
    for seed in [0u32, 1, 42, 3106, 123_456_789, u32::MAX] {
        let r = Road::from_seed(seed, 3, seed % 2 == 0);
        assert_eq!(r.y, 3);
        assert_eq!(r.inverted, seed % 2 == 0);
        assert!(1_600_000 <= r.half_width && r.half_width <= 2_000_000);
        assert!(!r.cars0.is_empty());
        assert!(r.cars0.len() <= 27);
        let lo = (r.half_width as u64 * 3 / 16) as u32;
        let hi = (r.half_width as u64 * 12 / 5) as u32;
        let mut last = 0u32;
        for car in &r.cars0 {
            assert!(car.0 < CYCLE);
            assert!(car.0 - last >= lo);
            assert!(car.0 - last <= hi);
            last = car.0;
        }
    }
}

#[test]
fn road_from_seed_is_a_function_of_the_seed() {
    let a = Road::from_seed(42, 5, false);
    let b = Road::from_seed(42, 9, true);
    assert_eq!(a.cars0, b.cars0);
    assert_eq!(a.half_width, b.half_width);
    let c = Road::from_seed(43, 5, false);
    assert!(a.cars0 != c.cars0 || a.half_width != c.half_width);
}

#[test]
fn cars_never_meet() {
    let r = Road::from_seed(42, 5, false);
    for time_us in [0u32, 1, 16_666, 1_000_000, 7_999_999, 8_000_000, 123_456_789, u32::MAX] {
        let mut places: Vec<u32> = r.cars0.iter().map(|c| c.drive(time_us).0).collect();
        assert_eq!(places.len(), r.cars0.len());
        places.sort();
        for pair in places.windows(2) {
            assert!(pair[0] < pair[1]);
        }
        for p in &places {
            assert!(*p < CYCLE);
        }
    }
    // after a whole lap every car is back where the comb put it
    let lap: Vec<Car> = r.cars0.iter().map(|c| c.drive(CYCLE)).collect();
    assert_eq!(lap, r.cars0);
}

#[test]
fn fixed_band_of_a_round() {
    let map = GameMap::new("ac");
    assert_eq!(map.get_row(0, 3), Row { y: 3, row_type: RowType::Lobby });
    assert_eq!(map.get_row(0, 18).row_type, RowType::Lobby);
    assert_eq!(map.get_row(1, 19).row_type, RowType::Grass);
    assert_eq!(map.get_row(1, 18).row_type, RowType::Grass);
    assert_eq!(map.get_row(1, 17).row_type, RowType::StartingBarrier);
    for y in 11..=16 {
        assert_eq!(map.get_row(1, y).row_type, RowType::Stands);
    }
    assert_eq!(map.get_row(7, 17), Row { y: 17, row_type: RowType::StartingBarrier });
}

#[test]
fn generated_rows_depend_on_seed_round_and_row() {
    let map = GameMap::new("ac");
    let mut kinds = std::collections::BTreeSet::new();
    for y in -200..=10 {
        let row = map.get_row(1, y);
        assert_eq!(row, map.get_row(1, y));
        assert_eq!(row.y, y);
        let kind = match row.row_type {
            RowType::Grass => 0,
            RowType::Road(_) => 1,
            RowType::River(_) => 2,
            RowType::Path { wall_width } => {
                assert!(wall_width < 4);
                3
            }
            RowType::Bushes { wall_width } => {
                assert!(wall_width < 4);
                4
            }
            RowType::IcyRow { wall_width } => {
                assert!(wall_width < 4);
                5
            }
            other => panic!("row {} of a round is {:?}", y, other),
        };
        kinds.insert(kind);
    }
    assert!(kinds.len() >= 4);
    let differs_by_round = (-200..=10).any(|y| map.get_row(1, y) != map.get_row(2, y));
    assert!(differs_by_round);
    let other = GameMap::new("bd");
    let differs_by_seed = (-200..=10).any(|y| map.get_row(1, y) != other.get_row(1, y));
    assert!(differs_by_seed);
}

#[test]
fn walls_and_barrier_block() {
    let path = RowType::Path { wall_width: 2 };
    assert!(path.blocks(0, false));
    assert!(path.blocks(2, false));
    assert!(!path.blocks(3, false));
    assert!(!path.blocks(16, false));
    assert!(path.blocks(17, false));
    assert!(RowType::Bushes { wall_width: 0 }.blocks(0, false));
    assert!(!RowType::Bushes { wall_width: 0 }.blocks(1, false));
    assert!(RowType::IcyRow { wall_width: 3 }.blocks(16, false));
    assert!(RowType::Stands.blocks(6, false));
    assert!(!RowType::Stands.blocks(7, false));
    assert!(!RowType::Stands.blocks(12, false));
    assert!(RowType::Stands.blocks(13, false));
    assert!(!RowType::StartingBarrier.blocks(9, false));
    assert!(RowType::StartingBarrier.blocks(9, true));
    assert!(RowType::StartingBarrier.blocks(3, false));
    assert!(!RowType::Grass.blocks(0, true));
    assert!(!RowType::Lobby.blocks(19, true));

    let map = GameMap::new("ac");
    assert!(map.blocked(1, CoordPos::new(-1, 18), false));
    assert!(map.blocked(1, CoordPos::new(20, 18), false));
    assert!(!map.blocked(1, CoordPos::new(0, 18), false));
    assert!(!map.blocked(1, CoordPos::new(19, 18), false));
    assert!(map.blocked(1, CoordPos::new(9, 17), true));
    assert!(!map.blocked(1, CoordPos::new(9, 17), false));
    assert!(map.blocked(1, CoordPos::new(5, 14), false));
}

#[test]
fn row_view_lists_the_screen() {
    let map = GameMap::new("ac");
    let rows = map.get_row_view(1, 0);
    assert_eq!(rows.len(), 20);
    for (k, row) in rows.iter().enumerate() {
        assert_eq!(*row, map.get_row(1, k as i32));
    }
    let rows = map.get_row_view(1, i32::MAX - 4);
    assert_eq!(rows.len(), 5);
    assert_eq!(rows[4].y, i32::MAX);
}

#[test]
fn cars_of_the_screen_are_the_cars_of_its_roads() {
    let map = GameMap::new("ac");
    let mut expected = Vec::new();
    let mut roads = 0;
    for y in -30..-10 {
        if let RowType::Road(d) = map.get_row(1, y).row_type {
            roads += 1;
            expected.extend(Road::from_seed(d.seed, y, d.inverted).get_cars_public(2_500_000));
        }
    }
    assert_eq!(map.get_cars(1, 2_500_000, -30), expected);
    assert!(roads > 0);
    assert!(map.get_cars(0, 2_500_000, -30).is_empty());
    assert!(map.get_cars(1, 2_500_000, 11).is_empty());
}

#[test]
fn map_collision_is_the_collision_of_the_road() {
    let map = GameMap::new("ac");
    let mut checked = 0;
    for y in -60..=10 {
        if let RowType::Road(d) = map.get_row(1, y).row_type {
            let road = Road::from_seed(d.seed, y, d.inverted);
            for x in 0..20 {
                let pos = CoordPos::new(x, y);
                assert_eq!(map.collides_car(1, 3_000_000, pos), road.collides_car(3_000_000, pos));
                checked += 1;
            }
        } else {
            assert!(!map.collides_car(1, 3_000_000, CoordPos::new(5, y)));
        }
    }
    assert!(checked > 0);
}

#[test]
fn lilypads_carry_and_drift() {
    let river = River {
        lane: Road { cars0: vec![Car(4_000_000), Car(5_000_000)], y: -3, half_width: 2_000_000, inverted: false },
    };
    // the pads lie at columns 10 and 15
    assert_eq!(river.get_lillipad_screen_x(0, &LillipadId { id: 0, y: -3 }), Some(10_000));
    assert_eq!(river.get_lillipad_screen_x(0, &LillipadId { id: 1, y: -3 }), Some(15_000));
    assert_eq!(river.get_lillipad_screen_x(0, &LillipadId { id: 2, y: -3 }), None);
    assert_eq!(river.get_lillipad_screen_x(0, &LillipadId { id: 0, y: -4 }), None);
    assert_eq!(river.get_lillipad_screen_x(200_000, &LillipadId { id: 0, y: -3 }), Some(11_000));

    let at = |x: i32| river.lillipad_at_pos(0, PreciseCoords { x, y: -3 });
    assert_eq!(at(10_000), Some(LillipadId { id: 0, y: -3 }));
    assert_eq!(at(10_750), Some(LillipadId { id: 0, y: -3 }));
    assert_eq!(at(10_751), None);
    assert_eq!(at(9_250), Some(LillipadId { id: 0, y: -3 }));
    assert_eq!(at(9_249), None);
    assert_eq!(at(15_000), Some(LillipadId { id: 1, y: -3 }));
    assert_eq!(river.lillipad_at_pos(0, PreciseCoords { x: 10_000, y: -2 }), None);
    assert_eq!(
        river.lillipad_at_pos(200_000, PreciseCoords { x: 10_000, y: -3 }),
        None
    );
    assert_eq!(river.get_lillipads_public(0).len(), 2);
    assert_eq!(river.get_lillipads_public(0)[1].0, 15_000);
    assert_eq!(river.get_lillipads_public(0)[1].1, -3);
}

#[test]
fn lilypads_start_to_drift_when_the_round_lets_them() {
    let spawn = RiverSpawnTimes { start_us: 2_000_000 };
    assert_eq!(spawn.elapsed(1_000_000), 0);
    assert_eq!(spawn.elapsed(2_000_000), 0);
    assert_eq!(spawn.elapsed(2_500_000), 500_000);
    assert_eq!(RiverSpawnTimes::empty().elapsed(7), 7);

    let map = GameMap::new("ac");
    let mut rivers = 0;
    for y in -80..=10 {
        if let RowType::River(d) = map.get_row(1, y).row_type {
            rivers += 1;
            let river = River::from_seed(d.seed, y, d.inverted);
            let pads = river.get_lillipads_public(500_000);
            assert_eq!(pads.len(), river.lane.cars0.len());
            let id = LillipadId { id: 0, y };
            let x = river.get_lillipad_screen_x(500_000, &id).unwrap();
            assert_eq!(map.get_lillipad_screen_x(1, &spawn, 2_500_000, &id), Some(x));
            assert_eq!(pads[0].0, x);
            assert_eq!(
                map.lillipad_at_pos(1, &spawn, 2_500_000, PreciseCoords { x, y }),
                Some(id)
            );
        } else {
            assert_eq!(
                map.lillipad_at_pos(1, &spawn, 2_500_000, PreciseCoords { x: 5_000, y }),
                None
            );
        }
    }
    assert!(rivers > 0);
}

#[test]
fn rows_by_their_draw() {
    let road = |seed, inverted| RowType::Road(crossy_multi_core::map::road::RoadDescr { seed, inverted });
    let river = |seed, inverted| RowType::River(crossy_multi_core::map::river::RiverDescr { seed, inverted });
    assert_eq!(crossy_multi_core::map::generated_row(0), road(0, false));
    assert_eq!(crossy_multi_core::map::generated_row(129), road(0, true));
    assert_eq!(crossy_multi_core::map::generated_row(429), road(2, false));
    assert_eq!(crossy_multi_core::map::generated_row(230), river(1, false));
    assert_eq!(crossy_multi_core::map::generated_row(149), river(0, true));
    assert_eq!(crossy_multi_core::map::generated_row(50), RowType::Path { wall_width: 0 });
    assert_eq!(crossy_multi_core::map::generated_row(674), RowType::Path { wall_width: 3 });
    assert_eq!(crossy_multi_core::map::generated_row(875), RowType::Bushes { wall_width: 0 });
    assert_eq!(crossy_multi_core::map::generated_row(284), RowType::Bushes { wall_width: 1 });
    assert_eq!(crossy_multi_core::map::generated_row(485), RowType::IcyRow { wall_width: 2 });
    assert_eq!(crossy_multi_core::map::generated_row(89), RowType::IcyRow { wall_width: 0 });
    assert_eq!(crossy_multi_core::map::generated_row(90), RowType::Grass);
    assert_eq!(crossy_multi_core::map::generated_row(99), RowType::Grass);
    assert_eq!(crossy_multi_core::map::generated_row(200 * 0x1_0000_0005), road(5, false));
}

#[test]
fn spacing_of_the_comb() {
    assert_eq!(crossy_multi_core::map::road::spacing_bounds(1_600_000), (300_000, 3_840_000));
    assert_eq!(crossy_multi_core::map::road::spacing_bounds(2_000_000), (375_000, 4_800_000));
    assert_eq!(crossy_multi_core::map::road::spacing_bounds(1_600_001), (300_000, 3_840_002));
}

#[test]
fn roads_that_are_not_well_formed_are_told() {
    assert!(Road::from_seed(42, 5, false).is_well_formed());
    assert!(River::from_seed(42, 5, false).is_well_formed());
    assert!(road(&[], 1_600_000, false).is_well_formed());
    assert!(road(&[1, 2, 7_999_999], 2_000_000, true).is_well_formed());
    assert!(!road(&[1, 2, 8_000_000], 2_000_000, true).is_well_formed());
    assert!(!road(&[2, 2], 2_000_000, true).is_well_formed());
    assert!(!road(&[3, 2], 2_000_000, true).is_well_formed());
    assert!(!road(&[1], 1_599_999, true).is_well_formed());
    assert!(!road(&[1], 2_000_001, true).is_well_formed());
    let long: Vec<u32> = (0..256).collect();
    assert!(road(&long, 2_000_000, false).is_well_formed());
    assert!(!River { lane: road(&long, 2_000_000, false) }.is_well_formed());
}
