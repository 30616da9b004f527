use rust_tour::enums::{
    circle_radius, is_rabid, monster_verdict, shape_remark, size_label, speed_advice, whole,
    Monster, Shape, Speed,
};

#[test]
fn slow_is_all_good() {
    assert_eq!(speed_advice(&Speed::Slow), "All good");
}

#[test]
fn too_fast_is_told_to_slow_down() {
    assert_eq!(speed_advice(&Speed::TooFast), "Slow down you crazy");
}

#[test]
fn one_hundred_is_small() {
    assert_eq!(size_label(100), "Small");
}

#[test]
fn zero_is_small() {
    assert_eq!(size_label(0), "Small");
}

#[test]
fn the_three_listed_numbers_are_medium() {
    assert_eq!(size_label(101), "Medium");
    assert_eq!(size_label(102), "Medium");
    assert_eq!(size_label(103), "Medium");
}

#[test]
fn beyond_the_list_is_big() {
    assert_eq!(size_label(104), "Big");
    assert_eq!(size_label(i32::MAX), "Big");
}

#[test]
fn negative_numbers_are_big() {
    assert_eq!(size_label(-1), "Big");
    assert_eq!(size_label(i32::MIN), "Big");
}

#[test]
fn ten_by_twenty_is_an_ok_rectangle() {
    assert_eq!(shape_remark(&Shape::Rectangle(10, 20)), "You an ok rectangle");
}

#[test]
fn the_guard_is_strict_at_one_hundred() {
    assert_eq!(shape_remark(&Shape::Rectangle(100, 1)), "You an ok rectangle");
    assert_eq!(shape_remark(&Shape::Rectangle(101, 1)), "You a tall rectangle");
}

#[test]
fn the_guard_looks_at_the_first_dimension_only() {
    assert_eq!(shape_remark(&Shape::Rectangle(1, 1000)), "You an ok rectangle");
    assert_eq!(shape_remark(&Shape::Rectangle(u32::MAX, 0)), "You a tall rectangle");
}

#[test]
fn a_circle_is_no_rectangle() {
    assert_eq!(shape_remark(&Shape::Circle(500)), "You no rectangle at all");
}

#[test]
fn blood_thirsty_vampire_outside_bat_form_means_we_are_done() {
    let monster = Monster::Vampire { blood_thirsty: true, bat_form: false };
    let verdict = monster_verdict(&monster);
    assert_eq!(verdict, "We are sooo done...");
    assert_ne!(verdict, "Keep calm");
}

#[test]
fn blood_thirsty_vampire_in_bat_form_means_we_are_done() {
    let monster = Monster::Vampire { blood_thirsty: true, bat_form: true };
    assert_eq!(monster_verdict(&monster), "We are sooo done...");
}

#[test]
fn sated_vampire_means_keep_calm() {
    assert_eq!(
        monster_verdict(&Monster::Vampire { blood_thirsty: false, bat_form: false }),
        "Keep calm"
    );
    assert_eq!(
        monster_verdict(&Monster::Vampire { blood_thirsty: false, bat_form: true }),
        "Keep calm"
    );
}

#[test]
fn any_rat_is_squishy() {
    assert_eq!(monster_verdict(&Monster::Rat { rabid: false }), "Squishy");
    assert_eq!(monster_verdict(&Monster::Rat { rabid: true }), "Squishy");
}

#[test]
fn only_a_rabid_rat_is_rabid() {
    assert!(is_rabid(&Monster::Rat { rabid: true }));
    assert!(!is_rabid(&Monster::Rat { rabid: false }));
    assert!(!is_rabid(&Monster::Vampire { blood_thirsty: true, bat_form: false }));
    assert!(!is_rabid(&Monster::Vampire { blood_thirsty: true, bat_form: true }));
}

#[test]
fn whole_gives_the_shape_back() {
    assert!(matches!(whole(Shape::Rectangle(10, 20)), Shape::Rectangle(10, 20)));
    assert!(matches!(whole(Shape::Circle(7)), Shape::Circle(7)));
}

#[test]
fn only_a_circle_has_a_radius() {
    assert_eq!(circle_radius(&Shape::Circle(3)), Some(3));
    assert_eq!(circle_radius(&Shape::Circle(0)), Some(0));
    assert_eq!(circle_radius(&Shape::Rectangle(10, 20)), None);
}

#[test]
fn area_of_a_circle_from_its_radius() {
    let radius = circle_radius(&Shape::Circle(2)).unwrap();
    let area: f32 = 3.14 * (radius as f32) * (radius as f32);
    assert_eq!(area, 12.56);
}
