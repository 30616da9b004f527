//! Tagged unions and the forms of pattern matching that take them apart.

use vstd::prelude::*;

verus! {

/// A speed level: a tagged union whose alternatives carry nothing.
pub enum Speed {
    Slow,
    TooFast,
}

/// A shape: a tagged union whose alternatives carry positional numbers.
pub enum Shape {
    Circle(u32),
    Rectangle(u32, u32),
}

/// A monster: a tagged union whose alternatives carry named flags.
pub enum Monster {
    Rat { rabid: bool },
    Vampire { blood_thirsty: bool, bat_form: bool },
}

/// Matches every alternative of a payload-free union.
pub fn speed_advice(speed: &Speed) -> (advice: &'static str)
    ensures
        speed is Slow ==> advice@ == "All good"@,
        speed is TooFast ==> advice@ == "Slow down you crazy"@,
{
    match speed {
        Speed::Slow => "All good",
        Speed::TooFast => "Slow down you crazy",
    }
}

/// Matches a number against a range, then a list of alternatives, then a
/// catch-all.
pub fn size_label(n: i32) -> (label: &'static str)
    ensures
        0 <= n <= 100 ==> label@ == "Small"@,
        101 <= n <= 103 ==> label@ == "Medium"@,
        n < 0 || n > 103 ==> label@ == "Big"@,
{
    match n {
        0..=100 => "Small",
        101 | 102 | 103 => "Medium",
        _ => "Big",
    }
}

/// Matches with a guard: a rectangle is tall when its first dimension
/// exceeds 100.
pub fn shape_remark(shape: &Shape) -> (remark: &'static str)
    ensures
        *shape matches Shape::Rectangle(h, _) && h > 100 ==> remark@ == "You a tall rectangle"@,
        *shape matches Shape::Rectangle(h, _) && h <= 100 ==> remark@ == "You an ok rectangle"@,
        shape is Circle ==> remark@ == "You no rectangle at all"@,
{
    match shape {
        Shape::Rectangle(h, _) if *h > 100 => "You a tall rectangle",
        Shape::Rectangle(_, _) => "You an ok rectangle",
        _ => "You no rectangle at all",
    }
}

/// Matches on named fields; the first arm that fits wins, so a blood-thirsty
/// vampire never reaches the catch-all vampire arm.
pub fn monster_verdict(monster: &Monster) -> (verdict: &'static str)
    ensures
        monster is Rat ==> verdict@ == "Squishy"@,
        *monster matches Monster::Vampire { blood_thirsty, .. } && blood_thirsty ==> verdict@
            == "We are sooo done..."@,
        *monster matches Monster::Vampire { blood_thirsty, .. } && !blood_thirsty ==> verdict@
            == "Keep calm"@,
{
    match monster {
        Monster::Rat { .. } => "Squishy",
        Monster::Vampire { blood_thirsty: true, .. } => "We are sooo done...",
        Monster::Vampire { .. } => "Keep calm",
    }
}

/// Matches by borrowing a field instead of moving it out.
pub fn is_rabid(monster: &Monster) -> (rabid: bool)
    ensures
        rabid == (*monster matches Monster::Rat { rabid: r } && r),
{
    match monster {
        Monster::Rat { ref rabid } => *rabid,
        _ => false,
    }
}

/// Binds the whole value while matching on its alternative.
pub fn whole(shape: Shape) -> (same: Shape)
    ensures
        same == shape,
{
    match shape {
        circle @ Shape::Circle(_) => circle,
        rectangle @ Shape::Rectangle(_, _) => rectangle,
    }
}

/// Tests a single pattern: the radius, where the shape is a circle.
pub fn circle_radius(shape: &Shape) -> (radius: Option<u32>)
    ensures
        radius == (match *shape {
            Shape::Circle(r) => Some(r),
            Shape::Rectangle(_, _) => None,
        }),
{
    if let Shape::Circle(r) = shape {
        Some(*r)
    } else {
        None
    }
}

/// Walks through each form of matching on fixed values.
pub fn enums() {
    // matching patterns
    let x1 = Speed::Slow;
    let _y1 = speed_advice(&x1);
    assert(_y1@ == "All good"@);

    // with multiple values
    let x2: i32 = 100;
    let _y2 = size_label(x2);
    assert(_y2@ == "Small"@);

    // with guards
    let x3 = Shape::Rectangle(10, 20);
    let _y3 = shape_remark(&x3);
    assert(_y3@ == "You an ok rectangle"@);

    // with fields
    let x4 = Monster::Vampire { blood_thirsty: true, bat_form: false };
    let _y4 = monster_verdict(&x4);
    assert(_y4@ == "We are sooo done..."@);

    // with borrowed references
    let _z4 = is_rabid(&x4);
    assert(!_z4);

    // with no unpacking
    let x5 = Shape::Rectangle(10, 20);
    let _y5 = whole(x5);
    assert(_y5 == Shape::Rectangle(10, 20));

    // testing a single pattern
    let _r = circle_radius(&x3);
    assert(_r is None);
}

} // verus!
