//! Capability interfaces: default behaviour, per-type implementations,
//! dispatch at run time and specialisation at compile time.

use std::fmt::Debug;
use std::hash::Hash;
use vstd::prelude::*;

verus! {

/// Something that can be eaten.
pub trait Eatable {
    fn eat_it(&self);

    /// Eats at the given speed. Unless a type says otherwise, speed makes no
    /// difference.
    fn chump_it(&self, _speed: u8) {
        self.eat_it();
    }
}

impl Eatable for i32 {
    fn eat_it(&self) {
    }
}

impl Eatable for u64 {
    fn eat_it(&self) {
    }
}

/// Accepts any eatable value behind a reference; which `eat_it` would run is
/// decided at run time.
pub fn have_quick_snack(_eatable: &dyn Eatable) {
}

/// Accepts a vector of one eatable type; a separate copy is compiled for each
/// such type.
pub fn have_lunch<E: Eatable>(_eatables: Vec<E>) {
}

/// Bounds can combine several traits.
pub fn eat_debugable<E: Eatable + Debug>(_eatables: Vec<E>) {
}

/// The same, with the bounds in a `where` clause.
pub fn eat_hashable<E>(_eatables: Vec<E>) where E: Eatable + Hash {
}

/// Uses one trait through a trait object, a vector of boxes, a qualified call
/// and a generic function.
pub fn traits() {
    // trait objects
    let x1: &dyn Eatable = &12i32;
    have_quick_snack(x1);

    // traits can be mixed and matched inside boxes
    let mut x2: Vec<Box<dyn Eatable>> = Vec::new();
    x2.push(Box::new(12i32));
    x2.push(Box::new(3456u64));

    // fully qualified trait method
    Eatable::eat_it(&9999u64);

    // generics can be bound to traits
    have_lunch(vec![1i32, 6i32, 2i32]);
}

} // verus!
