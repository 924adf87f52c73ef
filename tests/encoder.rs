use shortcode::encoder::to_base62;

const ALPHABET: &str = "0123456789ABCDEFGHIJKLMNOPQRSTUVWXYZabcdefghijklmnopqrstuvwxyz";

#[test]
fn encode_zero_is_offset_in_base62() {
    assert_eq!(to_base62(0), "1000");
}

#[test]
fn encode_one_differs_in_last_digit_only() {
    let a = to_base62(0);
    let b = to_base62(1);
    assert_eq!(b, "1001");
    assert_eq!(a.len(), b.len());
    assert_eq!(a[..a.len() - 1], b[..b.len() - 1]);
    assert_ne!(a, b);
}

#[test]
fn encode_exact_values() {
    assert_eq!(to_base62(61), "100z");
    assert_eq!(to_base62(62), "1010");
    assert_eq!(to_base62(3844), "1100");
    assert_eq!(to_base62(1000000), "5C92");
}

#[test]
fn encode_reaches_seven_characters() {
    assert_eq!(to_base62(56799997256), "1000000");
    assert_eq!(to_base62(56799997255), "zzzzzz");
    assert_eq!(to_base62(3521614367880), "10000000");
}

#[test]
fn encode_largest_input() {
    assert_eq!(to_base62(u64::MAX), "LygHa16BHYF");
}

#[test]
fn encode_is_injective_on_a_range() {
    let mut seen = std::collections::HashSet::new();
    for n in 0..20000u64 {
        assert!(seen.insert(to_base62(n)));
    }
    assert_ne!(to_base62(u64::MAX - 1), to_base62(u64::MAX));
}

#[test]
fn encode_shape() {
    for n in (0..100000u64).step_by(7).chain([u64::MAX, u64::MAX / 3]) {
        let code = to_base62(n);
        assert!(code.chars().count() >= 4);
        assert!(code.chars().all(|c| ALPHABET.contains(c)));
    }
}
