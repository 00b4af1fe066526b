use phonegen::digits::append_decimal;
use phonegen::generator::{get_random_phone, phone_from_parts, producer, PREFIX_COUNT};

const PREFIXES: [&str; 33] = [
    "139", "138", "137", "136", "135", "134", "159", "158", "157", "150", "151", "152", "188",
    "187", "182", "183", "184", "178", "130", "131", "132", "156", "155", "186", "185", "176",
    "133", "153", "189", "180", "181", "177", "199",
];

fn check_shape(phone: &str) {
    assert_eq!(phone.len(), 11);
    assert!(PREFIXES.contains(&&phone[..3]));
    let suffix: u64 = phone[3..].parse().unwrap();
    assert!((10_000_000..=99_999_999).contains(&suffix));
}

#[test]
fn decimal_is_zero_padded() {
    let mut s = String::from("x");
    append_decimal(&mut s, 7, 3);
    assert_eq!(s, "x007");
}

#[test]
fn decimal_keeps_last_digits() {
    let mut s = String::new();
    append_decimal(&mut s, 123456789, 8);
    assert_eq!(s, "23456789");
    let mut t = String::new();
    append_decimal(&mut t, 5, 0);
    assert_eq!(t, "");
}

#[test]
fn phone_from_first_and_last_prefix() {
    assert_eq!(phone_from_parts(0, 12345678), "13912345678");
    assert_eq!(phone_from_parts(32, 10000000), "19910000000");
    assert_eq!(phone_from_parts(17, 99999999), "17899999999");
}

#[test]
fn every_prefix_renders() {
    assert_eq!(PREFIX_COUNT, PREFIXES.len());
    for (i, p) in PREFIXES.iter().enumerate() {
        let phone = phone_from_parts(i, 55555555);
        assert_eq!(&phone[..3], *p);
    }
}

#[test]
fn generated_values_have_the_fixed_shape() {
    let mut rng = fastrand::Rng::with_seed(7);
    for _ in 0..2000 {
        check_shape(&get_random_phone(&mut rng));
    }
}

#[test]
fn seeded_source_is_deterministic() {
    let mut a = fastrand::Rng::with_seed(42);
    let mut b = fastrand::Rng::with_seed(42);
    assert_eq!(producer(&mut a, 50), producer(&mut b, 50));
}

#[test]
fn generated_values_vary() {
    let mut rng = fastrand::Rng::with_seed(3);
    let batch = producer(&mut rng, 200);
    let first = &batch[0];
    assert!(batch.iter().any(|p| p[3..] != first[3..]));
    assert!(batch.iter().any(|p| p[..3] != first[..3]));
}

#[test]
fn producer_fills_exact_count() {
    let mut rng = fastrand::Rng::with_seed(1);
    let batch = producer(&mut rng, 1000);
    assert_eq!(batch.len(), 1000);
    batch.iter().for_each(|p| check_shape(p));
}

#[test]
fn producer_with_zero_quota_gives_empty_batch() {
    let mut rng = fastrand::Rng::with_seed(1);
    assert!(producer(&mut rng, 0).is_empty());
}
