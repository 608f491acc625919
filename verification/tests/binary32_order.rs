use stolcker::binary32::{at_least, greater_than, less_than, nan, INFINITY_BITS, SIGN_BIT};

fn samples() -> Vec<f32> {
    vec![
        0.0,
        -0.0,
        1.0,
        -1.0,
        0.5,
        -0.5,
        90.0,
        100.0,
        105.0,
        110.0,
        1000.0,
        -1000.0,
        123.4567,
        123.4568,
        1.0e-40,
        -1.0e-40,
        f32::MIN_POSITIVE,
        f32::MAX,
        f32::MIN,
        f32::INFINITY,
        f32::NEG_INFINITY,
        f32::NAN,
        -f32::NAN,
        f32::EPSILON,
    ]
}

#[test]
fn less_than_agrees_with_binary32_comparison() {
    for a in samples() {
        for b in samples() {
            assert_eq!(less_than(a.to_bits(), b.to_bits()), a < b, "{} < {}", a, b);
        }
    }
}

#[test]
fn greater_than_agrees_with_binary32_comparison() {
    for a in samples() {
        for b in samples() {
            assert_eq!(greater_than(a.to_bits(), b.to_bits()), a > b, "{} > {}", a, b);
        }
    }
}

#[test]
fn at_least_agrees_with_binary32_comparison() {
    for a in samples() {
        for b in samples() {
            assert_eq!(at_least(a.to_bits(), b.to_bits()), a >= b, "{} >= {}", a, b);
        }
    }
}

#[test]
fn nan_agrees_with_binary32_classification() {
    for a in samples() {
        assert_eq!(nan(a.to_bits()), a.is_nan(), "{}", a);
    }
    assert!(!nan(INFINITY_BITS));
    assert!(nan(INFINITY_BITS + 1));
    assert!(!nan(SIGN_BIT));
    assert!(nan(u32::MAX));
}

#[test]
fn order_agrees_on_neighbouring_patterns() {
    let starts: Vec<u32> = vec![0, 1, 0x007f_fffe, 0x3f80_0000, 0x7f7f_fffe, 0x7f80_0000];
    for start in starts {
        for sign in [0u32, SIGN_BIT] {
            for da in 0u32..3 {
                for db in 0u32..3 {
                    let a = (start + da) | sign;
                    let b = (start + db) | sign;
                    let (x, y) = (f32::from_bits(a), f32::from_bits(b));
                    assert_eq!(less_than(a, b), x < y);
                    assert_eq!(at_least(a, b), x >= y);
                }
            }
        }
    }
}

#[test]
fn zeros_are_equal_and_nan_is_unordered() {
    let pz = 0.0f32.to_bits();
    let nz = (-0.0f32).to_bits();
    assert_ne!(pz, nz);
    assert!(!less_than(pz, nz));
    assert!(!less_than(nz, pz));
    assert!(at_least(pz, nz));
    assert!(at_least(nz, pz));
    let n = f32::NAN.to_bits();
    assert!(!less_than(n, n));
    assert!(!greater_than(n, n));
    assert!(!at_least(n, n));
    assert!(!at_least(n, pz));
    assert!(!at_least(pz, n));
}
