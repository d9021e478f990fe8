use lazyrand::xorshift::{xorshift64, XorShift64};
use lazyrand::xoshiro256pp::Xoroshiro256pp;
use lazyrand::{Random, TAG_AUTO_SEEDED, TAG_USER_SEEDED};

#[test]
fn test_from_seed() {
    let mut rnd = Random::from_seed(123456);
    let a1 = rnd.rand();
    let a2 = rnd.rand();
    let a3 = rnd.rand();
    let mut rnd2 = Random::from_seed(123456);
    let b1 = rnd2.rand();
    let b2 = rnd2.rand();
    let b3 = rnd2.rand();
    assert_eq!(a1, b1);
    assert_eq!(a2, b2);
    assert_eq!(a3, b3);
}

#[test]
fn test_randint() {
    let mut random = Random::from_seed(123456);
    for _ in 0..=1000 {
        let v = random.randint(0, 9);
        assert!(v >= 0 && v <= 9);
    }
}

#[test]
fn test_shuffle() {
    let mut a = vec![1, 2, 3, 4, 5, 6, 7, 8, 9, 10];
    let mut b = vec![1, 2, 3, 4, 5, 6, 7, 8, 9, 10];
    let mut random = Random::from_seed(111);
    random.shuffle(&mut a);
    random.shuffle(&mut b);
    assert_ne!(a, b);
}

#[test]
fn test_choice() {
    let mut random = Random::from_seed(222);
    // choice number
    let a = vec![1, 2, 3, 4, 5];
    let val = random.choice(&a).unwrap();
    assert!(val >= 1 && val <= 5);
    //
    let a = vec![1, 2];
    let val = random.choice(&a).unwrap();
    assert!(val >= 1 && val <= 2);
    //
    let a: Vec<usize> = vec![];
    let res = random.choice(&a);
    assert_eq!(res, None);

    // choice &str
    let a = vec!["banana"];
    let val = random.choice(&a).unwrap();
    assert_eq!(val, "banana");
}

#[test]
fn test_xorshift() {
    let mut random = XorShift64::from_seed(123456);
    let result = xorshift64(&mut random.state);
    assert_eq!(result, 8689614632028771299);
    let result = xorshift64(&mut random.state);
    assert_eq!(result, 9134513685019898372);
}

#[test]
fn test_state() {
    let mut rng = Xoroshiro256pp::from_seed(0);
    let a = rng.next();
    let b = rng.next();
    let c = rng.next();
    assert_ne!(a, b);
    assert_ne!(b, c);
}

#[test]
fn first_draws_of_seed_123456() {
    let mut random = Random::from_seed(123456);
    assert_eq!(random.rand(), 9557019149100550987);
    assert_eq!(random.rand(), 4037241920691566469);
    assert_eq!(random.rand(), 4911137104857879724);
}

#[test]
fn seed_zero_state_after_jump() {
    let rng = Xoroshiro256pp::from_seed(0);
    assert_eq!(
        rng.s,
        [2948370977864720100, 15270077571867799833, 16797687261312199144, 12011458850441900414]
    );
}

#[test]
fn randint_first_values_of_seed_123456() {
    let mut random = Random::from_seed(123456);
    let v: Vec<i64> = (0..5).map(|_| random.randint(0, 9)).collect();
    assert_eq!(v, vec![7, 9, 4, 0, 7]);
}

#[test]
fn randint_negative_range() {
    let mut random = Random::from_seed(42);
    assert_eq!(random.randint(-5, 5), 3);
}

#[test]
fn randint_width_one() {
    let mut random = Random::from_seed(123456);
    for _ in 0..100 {
        assert_eq!(random.randint(5, 5), 5);
        assert_eq!(random.randint(i64::MIN, i64::MIN), i64::MIN);
    }
}

#[test]
fn randint_full_range() {
    let mut random = Random::from_seed(0);
    assert_eq!(random.randint(i64::MIN, i64::MAX), -6567663393885754142);
}

#[test]
fn randint_stays_in_range_over_many_draws() {
    let mut random = Random::from_seed(2024);
    for _ in 0..2000 {
        let v = random.randint(-3, 17);
        assert!(v >= -3 && v <= 17);
    }
}

#[test]
fn binary_range_bias_is_bounded() {
    for seed in [99999u64, 123456] {
        let mut random = Random::from_seed(seed);
        let mut v = vec![0, 0];
        for _ in 0..1000 {
            let r = random.randint(0, 1);
            v[r as usize] += 1;
        }
        assert!(v[0] > 450 && v[0] < 550);
    }
}

#[test]
fn rand_bool_bias_is_bounded() {
    let mut random = Random::from_seed(123456);
    let mut v = [0, 0];
    for _ in 0..1000 {
        let r = if random.rand_bool() { 1 } else { 0 };
        v[r] += 1;
    }
    assert!(v[0] > 400 && v[0] < 600);
}

#[test]
fn rand_bool_is_parity_of_draw() {
    let mut a = Random::from_seed(42);
    let mut b = Random::from_seed(42);
    assert_eq!(a.rand_bool(), false);
    assert_eq!(b.rand() % 2 == 1, false);
}

#[test]
fn shuffle_exact_order_for_seed_111() {
    let mut a = vec![1, 2, 3, 4, 5, 6, 7, 8, 9, 10];
    let mut random = Random::from_seed(111);
    random.shuffle(&mut a);
    assert_eq!(a, vec![5, 10, 4, 1, 7, 8, 2, 9, 3, 6]);
}

#[test]
fn shuffle_keeps_the_elements() {
    let mut random = Random::from_seed(5);
    for len in 0..20 {
        let orig: Vec<u32> = (0..len).map(|i| i * 3 % 7).collect();
        let mut a = orig.clone();
        random.shuffle(&mut a);
        let mut x = a.clone();
        let mut y = orig.clone();
        x.sort();
        y.sort();
        assert_eq!(x, y);
    }
}

#[test]
fn shuffle_empty_and_single_are_noops() {
    let mut random = Random::from_seed(9);
    let mut reference = Random::from_seed(9);
    let mut e: Vec<i32> = vec![];
    random.shuffle(&mut e);
    assert!(e.is_empty());
    let mut one = vec![42];
    random.shuffle(&mut one);
    assert_eq!(one, vec![42]);
    // neither drew anything
    assert_eq!(random.rand(), reference.rand());
}

#[test]
fn choice_picks_draw_modulo_length() {
    let mut random = Random::from_seed(7);
    let a = vec!["x", "y", "z"];
    assert_eq!(random.choice(&a), Some("z"));
}

#[test]
fn choice_on_empty_draws_nothing() {
    let mut random = Random::from_seed(7);
    let e: Vec<u8> = vec![];
    assert_eq!(random.choice(&e), None);
    let a = vec!["x", "y", "z"];
    assert_eq!(random.choice(&a), Some("z"));
}

#[test]
fn choice_is_always_a_member() {
    let mut random = Random::from_seed(31);
    let a = vec![10, 20, 30, 40];
    for _ in 0..500 {
        let v = random.choice(&a).unwrap();
        assert!(a.contains(&v));
    }
}

#[test]
fn set_seed_restarts_the_stream() {
    let mut random = Random::from_seed(1);
    random.rand();
    random.rand();
    random.set_seed(123456);
    assert_eq!(random.tag, TAG_USER_SEEDED);
    assert_eq!(random.rand(), 9557019149100550987);
}

#[test]
fn new_is_tagged_auto_seeded() {
    let mut auto = Random::new(123456);
    assert_eq!(auto.tag, TAG_AUTO_SEEDED);
    assert_eq!(auto.rand(), 9557019149100550987);
    assert_eq!(Random::from_seed(3).tag, TAG_USER_SEEDED);
}

#[test]
fn isize_and_usize_reinterpret_the_draw() {
    let mut a = Random::from_seed(0);
    let mut b = Random::from_seed(0);
    let mut c = Random::from_seed(0);
    let d = a.rand();
    assert_eq!(b.rand_usize(), d as usize);
    assert_eq!(c.rand_isize(), d as isize);
}

#[test]
fn jumps_move_the_state() {
    let base = Xoroshiro256pp::from_seed(77);
    let mut j = Xoroshiro256pp::from_seed(77);
    let mut lj = Xoroshiro256pp::from_seed(77);
    j.jump();
    lj.long_jump();
    assert_ne!(j.s, base.s);
    assert_ne!(lj.s, base.s);
    assert_ne!(j.s, lj.s);
}

#[test]
fn zero_generators_are_fixed_points() {
    let mut x = Xoroshiro256pp::new();
    assert_eq!(x.next(), 0);
    assert_eq!(x.s, [0; 4]);
    let mut y = XorShift64::new();
    assert_eq!(y.next(), 0);
    let mut z = XorShift64::from_seed(123456);
    assert_eq!(z.next(), 8689614632028771299);
    z.set_seed(123456);
    assert_eq!(z.state, 123456 ^ 132366047211908);
}

#[test]
fn test_randint2() {
    let mut random = Random::new(20240101);
    // 1000 times
    for _ in 0..1000 {
        let r = random.randint(5, 15);
        assert!(r >= 5 && r <= 15);
    }
}

#[test]
fn seed_equal_to_mix_value_is_never_all_zero() {
    let seed = lazyrand::xoshiro256pp::SEED_MIX;
    let mut rng = Xoroshiro256pp::from_seed(seed);
    assert_ne!(rng.s, [0; 4]);
    assert_ne!(rng.next(), 0);
    let mut random = Random::from_seed(1);
    random.set_seed(seed);
    assert_ne!(random.gen.s, [0; 4]);
    let draws: Vec<u64> = (0..4).map(|_| random.rand()).collect();
    assert!(draws.iter().any(|&d| d != 0));
}
