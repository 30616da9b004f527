//! Sharing a value through references, which leaves its owner in place.

use crate::text_order::{sort_of_pair, sort_texts, texts};
use std::collections::HashMap;
use vstd::prelude::*;

verus! {

/// An aircraft, known by its call code.
pub struct Airplane {
    pub callcode: String,
    pub color: String,
}

/// The number that stands for a three-letter code: its letters, read as the
/// digits of a number in base 0x110000, one more than the largest character.
pub open spec fn key_of(first: char, second: char, third: char) -> int {
    (first as int * 0x110000 + second as int) * 0x110000 + third as int
}

/// Packs a three-letter airport code into the number that keys the map.
pub fn airport_key(first: char, second: char, third: char) -> (key: u64)
    ensures
        key == key_of(first, second, third),
{
    let a: u64 = first as u64;
    let b: u64 = second as u64;
    let c: u64 = third as u64;
    (a * 0x110000 + b) * 0x110000 + c
}

/// Two codes have the same key only if they are the same code, so a map by
/// key is a map by code.
pub proof fn key_of_is_injective(a0: char, a1: char, a2: char, b0: char, b1: char, b2: char)
    requires
        key_of(a0, a1, a2) == key_of(b0, b1, b2),
    ensures
        a0 == b0,
        a1 == b1,
        a2 == b2,
{
}

/// Walks a borrowed map. The loop takes references to the entries, so the
/// caller still owns the map afterwards.
pub fn references_shared(x: &HashMap<u64, String>) {
    for (_code, _name) in x.iter() {
    }
}

/// Takes an exclusive borrow of a map and leaves the map as it found it.
pub fn references_mutable(_x: &mut HashMap<u64, String>)
    ensures
        *final(_x) == *old(_x),
{
}

/// Lends values out in each of the ways the language offers.
pub fn references() {
    // passing a reference parameter does not move ownership
    let lax: u64 = airport_key('L', 'A', 'X');
    let yul: u64 = airport_key('Y', 'U', 'L');
    let mut x1: HashMap<u64, String> = HashMap::new();
    x1.insert(lax, "Los Angeles".to_string());
    x1.insert(yul, "Montréal".to_string());
    references_shared(&x1);
    references_mutable(&mut x1);
    assert(x1@.dom() =~= set![lax, yul] && lax != yul);
    assert(x1@[lax]@ == "Los Angeles"@ && x1@[yul]@ == "Montréal"@);

    // all good
    let _y1 = x1;

    // the dot operator implicitly dereferences
    let x2 = Airplane { callcode: "Bandit".to_string(), color: "Black".to_string() };
    let x2_r = &x2;

    // these are the same
    let _y2_a = &((*x2_r).callcode);
    let _y2_b = &(x2.callcode);
    let _y2_c = &(x2_r.callcode);
    assert(_y2_a@ == "Bandit"@);
    assert(_y2_a == _y2_b && _y2_b == _y2_c);

    // sorting borrows the vector exclusively, and can do so again
    let mut x3: Vec<String> = vec!["B".to_string(), "A".to_string()];
    proof {
        reveal_strlit("A");
        reveal_strlit("B");
        assert(texts(x3@) =~= seq!["B"@, "A"@]);
        sort_of_pair("A"@, "B"@);
    }
    sort_texts(&mut x3);
    sort_texts(&mut x3);
    assert(x3.len() == 2 && x3[0]@ == "A"@ && x3[1]@ == "B"@);

    // can get reference to any expression
    // it gets an anonymous variable
    let x4: &i32 = &(1 + 2);
    let _y4: i32 = x4 + &3;
    assert(_y4 == 6);
}

} // verus!
