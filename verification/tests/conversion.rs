//! Calibration policy: raw probe value to moisture percentage, and the
//! numeric text line.

use plant_minder::label::value_label;
use plant_minder::reading::Reading;

#[test]
fn percentage_formula_exact_values() {
    // percentage = 100 - round(raw / 4096 * 100)
    assert_eq!(Reading::from_raw(0).percentage, 100);
    assert_eq!(Reading::from_raw(2048).percentage, 50);
    assert_eq!(Reading::from_raw(512).percentage, 87);
    assert_eq!(Reading::from_raw(3100).percentage, 24);
    assert_eq!(Reading::from_raw(4095).percentage, 0);
}

#[test]
fn percentage_always_in_range() {
    for raw in 0..4096u16 {
        let r = Reading::from_raw(raw);
        assert!(r.percentage <= 100);
        assert_eq!(r.raw_value, raw);
    }
}

#[test]
fn percentage_antitone_in_raw_value() {
    let mut previous = Reading::from_raw(0).percentage;
    for raw in 1..4096u16 {
        let current = Reading::from_raw(raw).percentage;
        assert!(current <= previous, "raw {} rose above raw {}", raw, raw - 1);
        previous = current;
    }
}

#[test]
fn reading_round_trips_through_pair() {
    let r = Reading::from_raw(3100);
    let p = r.to_pair();
    assert_eq!(p, (3100, 24));
    assert_eq!(Reading::from_pair(p), r);
}

#[test]
fn label_pads_to_four_digits() {
    assert_eq!(value_label(0), "Raw Val 0000");
    assert_eq!(value_label(7), "Raw Val 0007");
    assert_eq!(value_label(42), "Raw Val 0042");
    assert_eq!(value_label(512), "Raw Val 0512");
    assert_eq!(value_label(4095), "Raw Val 4095");
}
