use crossy_multi_core::rng::FroggyRng;

#[test]
fn gen_is_the_draw_of_froggy_rand() {
    for (seed, key) in [(0u64, 0i32), (5, 1), (5, 2), (u64::MAX, -1), (3106, 17)] {
        let expected = froggy_rand::FroggyRand::new(seed).gen_perf(key);
        assert_eq!(FroggyRng::new(seed).gen(key), expected);
        assert_ne!(FroggyRng::new(seed).gen(key), seed);
    }
    assert_ne!(FroggyRng::new(5).gen(1), FroggyRng::new(5).gen(2));
    assert_ne!(FroggyRng::new(5).gen(1), FroggyRng::new(6).gen(1));
}

#[test]
fn subrand_seeds_with_the_draw() {
    let rng = FroggyRng::new(99);
    let sub = rng.subrand(4);
    assert_eq!(sub.seed, rng.gen(4));
    assert_eq!(sub.gen(7), froggy_rand::FroggyRand::new(rng.gen(4)).gen_perf(7));
}

#[test]
fn unit_draw_is_in_millionths() {
    let rng = FroggyRng::new(12345);
    for key in -50..50 {
        let u = rng.gen_unit_micro(key);
        assert!(u < 1_000_000);
        assert_eq!(u as u64, rng.gen(key) % 1_000_000);
        let theirs = froggy_rand::FroggyRand::new(12345).gen_unit_perf(key);
        assert_eq!(u as f32 / 1_000_000.0, theirs);
    }
}

#[test]
fn next_range_stays_in_range() {
    let rng = FroggyRng::new(7);
    for key in 0..200 {
        let r = rng.next_range(key, 10, 20);
        assert!((10..=20).contains(&r));
        assert_eq!(r as u64, 10 + rng.gen(key) % 11);
    }
    assert_eq!(rng.next_range(3, 10, 10), 10);
    assert_eq!(rng.next_range(3, 10, 5), 10);
    assert_eq!(rng.next_range(3, 0, u32::MAX) as u64, rng.gen(3) % (1u64 << 32));
    let seen: std::collections::BTreeSet<u32> = (0..200).map(|k| rng.next_range(k, 10, 20)).collect();
    assert!(seen.len() > 5);
}

#[test]
fn choose_index_picks_one_of_the_choices() {
    let rng = FroggyRng::new(7);
    for key in 0..100 {
        let i = rng.choose_index(key, 6);
        assert!(i < 6);
        assert_eq!(i as u64, (rng.gen(key) % 0xFFFF_FFFF) % 6);
        let choices = [10, 11, 12, 13, 14, 15];
        assert_eq!(choices[i], 10 + i);
    }
    assert_eq!(rng.choose_index(1, 1), 0);
}

#[test]
fn shuffle_is_a_permutation() {
    let rng = FroggyRng::new(2024);
    let in_order: Vec<u32> = (0..40).collect();
    let mut shuffled = in_order.clone();
    rng.shuffle(3, &mut shuffled);
    assert_ne!(shuffled, in_order);
    let mut sorted = shuffled.clone();
    sorted.sort();
    assert_eq!(sorted, in_order);

    let mut again = in_order.clone();
    rng.shuffle(3, &mut again);
    assert_eq!(again, shuffled);
    let mut other = in_order.clone();
    rng.shuffle(4, &mut other);
    assert_ne!(other, shuffled);

    let mut empty: Vec<u32> = Vec::new();
    rng.shuffle(3, &mut empty);
    assert!(empty.is_empty());
    let mut one = vec![9u32];
    rng.shuffle(3, &mut one);
    assert_eq!(one, vec![9]);
}

#[test]
fn shuffle_follows_fisher_yates() {
    let rng = FroggyRng::new(11);
    let mut items = vec!['a', 'b', 'c', 'd', 'e'];
    rng.shuffle(8, &mut items);
    let sub = rng.subrand(8);
    let mut expected = vec!['a', 'b', 'c', 'd', 'e'];
    for i in 0..4usize {
        let j = i + (sub.gen(i as i32) % (5 - i) as u64) as usize;
        expected.swap(i, j);
    }
    assert_eq!(items, expected);
}

#[test]
fn draws_are_reduced_as_stated() {
    assert_eq!(crossy_multi_core::rng::unit_micro_of(1_234_567_891), 567_891);
    assert_eq!(crossy_multi_core::rng::unit_micro_of(999_999), 999_999);
    assert_eq!(crossy_multi_core::rng::unit_micro_of(1_000_000), 0);
    assert_eq!(crossy_multi_core::rng::range_of(25, 10, 20), 13);
    assert_eq!(crossy_multi_core::rng::range_of(21, 10, 20), 20);
    assert_eq!(crossy_multi_core::rng::range_of(22, 10, 20), 10);
    assert_eq!(crossy_multi_core::rng::range_of(77, 5, 5), 5);
    assert_eq!(crossy_multi_core::rng::range_of(77, 9, 5), 9);
    assert_eq!(crossy_multi_core::rng::range_of(u64::MAX, 0, u32::MAX), u32::MAX);
    assert_eq!(crossy_multi_core::rng::index_of(10, 3), 1);
    assert_eq!(crossy_multi_core::rng::index_of(0xFFFF_FFFF, 3), 0);
    assert_eq!(crossy_multi_core::rng::index_of(0x1_0000_0000, 3), 1);
    assert_eq!(crossy_multi_core::rng::index_of(u64::MAX, 7), 0);
}
