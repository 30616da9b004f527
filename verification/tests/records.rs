use rust_tour::associated_functions::Dog;
use rust_tour::structs::{large, medium, Pizza, RgbColor, Square};

#[test]
fn large_copies_all_but_the_size() {
    let small = Pizza { size: 8, with_bacon: true };
    let big = large(small);
    assert_eq!(big.size, 16);
    assert!(big.with_bacon);
}

#[test]
fn large_keeps_a_pizza_without_bacon_without_bacon() {
    let plain = Pizza { size: 8, with_bacon: false };
    let big = large(plain);
    assert_eq!(big.size, 16);
    assert!(!big.with_bacon);
}

#[test]
fn large_of_a_large_is_still_sixteen() {
    let big = large(large(Pizza { size: 255, with_bacon: true }));
    assert_eq!(big.size, 16);
    assert!(big.with_bacon);
}

#[test]
fn medium_is_twelve_with_the_bacon_asked_for() {
    let with = medium(true);
    assert_eq!(with.size, 12);
    assert!(with.with_bacon);
    let without = medium(false);
    assert_eq!(without.size, 12);
    assert!(!without.with_bacon);
}

#[test]
fn colour_fields_are_read_by_position() {
    let colour = RgbColor(1, 2, 3);
    assert_eq!(colour.0, 1);
    assert_eq!(colour.1, 2);
    assert_eq!(colour.2, 3);
}

#[test]
fn a_marker_takes_no_room() {
    let _square = Square;
    assert_eq!(std::mem::size_of::<Square>(), 0);
}

#[test]
fn every_dog_says_ruf() {
    assert_eq!(Dog { is_good_boy: true }.bark(), "ruf");
    assert_eq!(Dog { is_good_boy: false }.bark(), "ruf");
}
