use servo_ui::step_format::{decimal_places, step_rounding_decimals};

#[test]
fn decimal_places_of_hundredths() {
    assert_eq!(decimal_places(0.01f64.to_string().as_bytes()), 2);
}

#[test]
fn decimal_places_of_integer_step() {
    assert_eq!(decimal_places(b"1"), 0);
    assert_eq!(decimal_places(5f64.to_string().as_bytes()), 0);
}

#[test]
fn decimal_places_counts_after_first_dot() {
    assert_eq!(decimal_places(b"0.125"), 3);
    assert_eq!(decimal_places(b"1.2.3"), 3);
    assert_eq!(decimal_places(b"7."), 0);
    assert_eq!(decimal_places(b""), 0);
}

#[test]
fn rounding_decimals_below_limit() {
    assert_eq!(step_rounding_decimals(b"0.01"), Some(2));
    assert_eq!(step_rounding_decimals(b"10"), Some(0));
    assert_eq!(step_rounding_decimals(b"0.000000000000001"), Some(15));
}

#[test]
fn rounding_decimals_at_limit_is_none() {
    assert_eq!(step_rounding_decimals(b"0.0000000000000001"), None);
    assert_eq!(step_rounding_decimals(0.1f64.powi(20).to_string().as_bytes()), None);
}
