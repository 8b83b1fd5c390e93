use gem::number::{Number, Order};

fn num(x: f32) -> Number {
    Number::from_bits(x.to_bits())
}

/// A fixed sequence of bit patterns: small integers, fractions, and patterns
/// from all over the range.
fn samples() -> Vec<f32> {
    let mut out = vec![
        0.0, -0.0, 1.0, -1.0, 0.5, 0.1, 0.2, 0.3, 2.5, 3.0, 10.0, 100.0, 1.0e9, 1.0e10, 123456789.0,
        16777216.0, 16777217.0, 4294967296.0, 1.0e20, 3.4028235e38, 1.0e-5, 1.0e-10, 1.1754944e-38,
        1.0e-45, 0.333333343, 7.0e22, f32::INFINITY, f32::NEG_INFINITY,
    ];
    let mut state: u32 = 0x1234_5678;
    for _ in 0..400 {
        state = state.wrapping_mul(1664525).wrapping_add(1013904223);
        let x = f32::from_bits(state);
        if !x.is_nan() {
            out.push(x);
        }
    }
    out
}

fn same(a: Number, b: f32) -> bool {
    let x = f32::from_bits(a.to_bits());
    (x.is_nan() && b.is_nan()) || x.to_bits() == b.to_bits()
}

#[test]
fn arithmetic_is_that_of_the_format() {
    let xs = samples();
    for (i, a) in xs.iter().enumerate() {
        let b = xs[(i * 7 + 3) % xs.len()];
        assert!(same(num(*a).plus(&num(b)), a + b), "{} + {}", a, b);
        assert!(same(num(*a).minus(&num(b)), a - b), "{} - {}", a, b);
        assert!(same(num(*a).times(&num(b)), a * b), "{} * {}", a, b);
        assert!(same(num(*a).over(&num(b)), a / b), "{} / {}", a, b);
    }
}

#[test]
fn comparison_is_that_of_the_format() {
    let xs = samples();
    for (i, a) in xs.iter().enumerate() {
        let b = xs[(i * 11 + 5) % xs.len()];
        let expected = match a.partial_cmp(&b) {
            Some(std::cmp::Ordering::Less) => Order::Less,
            Some(std::cmp::Ordering::Equal) => Order::Equal,
            Some(std::cmp::Ordering::Greater) => Order::Greater,
            None => Order::Unordered,
        };
        assert_eq!(num(*a).compare(&num(b)), expected, "{} ? {}", a, b);
        assert_eq!(num(*a).compare(&num(*a)), Order::Equal);
    }
    assert!(num(f32::NAN).is_nan());
    assert!(!num(1.0).is_nan());
}

#[test]
fn truncation_is_that_of_the_format() {
    for a in samples() {
        assert_eq!(num(a).to_index(), a as usize, "{}", a);
    }
}

#[test]
fn text_reads_back() {
    for a in samples() {
        let text = num(a).to_text();
        if a.is_finite() {
            assert_eq!(text.parse::<f32>().unwrap().to_bits(), a.to_bits(), "{} as {}", a, text);
        }
    }
}

#[test]
fn text_is_as_short_as_can_be() {
    for a in samples() {
        if a.is_finite() {
            assert_eq!(num(a).to_text().len(), format!("{}", a).len(), "{:?}", a);
        }
    }
}

#[test]
fn text_of_common_numbers() {
    let common = [
        0.0f32, -0.0, 1.0, -1.0, 0.5, 0.1, 0.2, 0.3, 2.5, 3.0, 10.0, 100.0, 1.0e9, 1.0e10,
        123456789.0, 16777216.0, 16777217.0, 4294967296.0, 1.0e20, 3.4028235e38, 1.0e-5,
        1.0e-10, 0.333333343, 7.0e22, 1.0e-45, 1.1754944e-38, 14.0, 0.75, 1234.5678, 99999.99,
    ];
    for a in common {
        assert_eq!(num(a).to_text(), format!("{}", a), "{:?}", a);
    }
}
