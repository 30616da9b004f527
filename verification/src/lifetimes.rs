//! A reference lives no longer than the value it points to.

use vstd::prelude::*;

verus! {

/// A record that holds a reference, and so cannot outlive what it refers to.
pub struct Piano<'a> {
    pub keys: &'a i32,
}

/// Declares a reference ahead of a value that lives in an inner scope only;
/// the reference can never be pointed at that value.
pub fn lifetimes_basics() {
    let _reference: &i32;
    {
        let _value: i32 = 1;
    }
}

/// Spells out the lifetimes that are implied when none are written. The
/// result borrows from neither argument: it refers to a constant zero.
pub fn _lifetimes_explicit<'a, 'b, 'c>(_x: &'a Vec<i32>, _y: &'b i32) -> (zero: &'c i32)
    ensures
        *zero == 0,
{
    return &0;
}

/// With one reference coming in and one going out, both get the same
/// lifetime. The result refers to the first element.
pub fn _lifetimes_explicit_simple_case<'a>(x: &'a Vec<i32>) -> (first: &'a i32)
    requires
        x.len() > 0,
    ensures
        *first == x[0],
{
    return &x[0];
}

/// The result lives as long as the vector, whatever becomes of the index. It
/// refers to the element at that index.
pub fn lifetimes_bound<'a, 'b>(x: &'a Vec<i32>, y: &'b usize) -> (element: &'a i32)
    requires
        *y < x.len(),
    ensures
        *element == x[*y as int],
{
    return &x[*y];
}

/// Keeps a reference into a vector beyond the scope of the index that
/// picked it.
pub fn lifetimes() {
    lifetimes_basics();

    let vector: Vec<i32> = vec![1, 2, 3];
    let _result;
    {
        // index must live only for the function call
        let index: usize = 0;
        _result = lifetimes_bound(&vector, &index);
    }
    assert(*_result == 1);
}

/// Builds a record around a reference to a local value.
pub fn lifetimes_structs() {
    let keys: i32 = 64;
    let _piano = Piano { keys: &keys };
    assert(*_piano.keys == 64);
}

} // verus!
