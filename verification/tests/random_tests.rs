use records_api::errors::Error;
use records_api::random::{generate, random_number, resolve_params};

fn assert_in_range(min: u8, max: u8, trials: usize) {
    for _ in 0..trials {
        match generate(min, max) {
            Ok(v) => assert!(min <= v && v <= max),
            Err(_) => panic!("generate({}, {}) must succeed", min, max),
        }
    }
}

#[test]
fn generate_stays_in_range_at_boundaries() {
    assert_in_range(0, 0, 1000);
    assert_in_range(0, 255, 1000);
    assert_in_range(255, 255, 1000);
    assert_in_range(10, 20, 1000);
}

#[test]
fn generate_covers_small_range() {
    let mut seen = [false; 256];
    for _ in 0..1000 {
        let v = generate(10, 20).unwrap();
        seen[v as usize] = true;
    }
    for v in 10..=20u8 {
        assert!(seen[v as usize], "value {} never produced", v);
    }
}

#[test]
fn generate_equal_bounds_is_constant() {
    for _ in 0..100 {
        assert_eq!(generate(42, 42).unwrap(), 42);
    }
}

#[test]
fn generate_rejects_inverted_range() {
    match generate(200, 5) {
        Ok(_) => panic!("generate(200, 5) must fail"),
        Err(e) => {
            match &e {
                Error::InvalidRange(d) => {
                    assert!(d.contains("Minimum value cannot be greater than maximum value."));
                }
                _ => panic!("expected InvalidRange"),
            }
            assert_eq!(e.http_status(), 400);
            assert_eq!(e.label(), "Invalid range");
            assert_eq!(
                e.details(),
                "Minimum value cannot be greater than maximum value."
            );
        }
    }
}

#[test]
fn params_default_to_full_byte_range() {
    assert_eq!(resolve_params(None, None), (0, 255));
    assert_eq!(resolve_params(Some(7), None), (7, 255));
    assert_eq!(resolve_params(None, Some(9)), (0, 9));
    assert_eq!(resolve_params(Some(3), Some(4)), (3, 4));
}

#[test]
fn random_number_applies_defaults() {
    for _ in 0..100 {
        assert!(random_number(None, None).is_ok());
        let v = random_number(Some(5), Some(5)).unwrap();
        assert_eq!(v, 5);
    }
    assert!(random_number(Some(1), Some(0)).is_err());
}
