//! Every value has one owner. Assigning it or passing it on moves it, and the
//! binding it came from can no longer be used.

use vstd::prelude::*;

verus! {

/// Takes ownership of a vector, which ends with this call.
pub fn ownership_move(_x: Vec<i32>) {
}

/// Moves, copies and takes values.
pub fn ownership() {
    // assignation moves ownership
    let x1: Vec<i32> = Vec::new();
    let _y1 = x1;

    // passing a parameter also moves ownership
    let x2: Vec<i32> = Vec::new();
    ownership_move(x2);

    // copiable types are an exception
    let x3: i32 = 1;
    let _y3: i32 = x3;
    let _z3: i32 = x3;
    assert(_y3 == 1 && _z3 == 1);

    // cannot move value out of its owner
    let mut x4: Vec<String> = Vec::new();
    x4.push("a".to_string());
    x4.push("b".to_string());
    assert(x4.len() == 2);

    // can move value out of Option though
    // x5[0] is left as None
    let mut x5: Vec<Option<String>> = Vec::new();
    x5.push(Some("a".to_string()));
    x5.push(Some("b".to_string()));
    let _y5 = x5[0].take();
    assert(_y5 matches Some(taken) && taken@ == "a"@);
    assert(x5[0] is None);
    assert(x5[1] matches Some(left) && left@ == "b"@);

    // loops move ownership of a
    // container and their elements
    let mut x6: Vec<Option<String>> = Vec::new();
    x6.push(Some("a".to_string()));
    x6.push(Some("b".to_string()));
    for _y6 in x6 {
    }
}

} // verus!
