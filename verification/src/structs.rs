//! Records with named fields, with positional fields, and with none.

use vstd::prelude::*;

verus! {

/// A pizza: a record with named fields.
pub struct Pizza {
    pub size: u8,
    pub with_bacon: bool,
}

/// A colour: a record whose fields are known by position.
pub struct RgbColor(pub u8, pub u8, pub u8);

/// A marker: a record without fields.
pub struct Square;

/// A pizza of size 12. The field `with_bacon` is filled from the parameter of
/// the same name.
pub fn medium(with_bacon: bool) -> (pizza: Pizza)
    ensures
        pizza.size == 12,
        pizza.with_bacon == with_bacon,
{
    Pizza { size: 12, with_bacon }
}

/// A pizza of size 16 that takes every other field from `source`.
pub fn large(source: Pizza) -> (pizza: Pizza)
    ensures
        pizza.size == 16,
        pizza.with_bacon == source.with_bacon,
{
    Pizza { size: 16, ..source }
}

/// Builds one record of each kind and reads its fields.
pub fn structs() {
    // named-field
    let small = Pizza { size: 8, with_bacon: true };

    // populate fields from another instance
    let _large = large(small);
    assert(_large.size == 16 && _large.with_bacon);

    // tuple-like
    let black = RgbColor(0, 0, 0);
    let _red: u8 = black.0;
    let _green: u8 = black.1;
    let _blue: u8 = black.2;
    assert(_red == 0 && _green == 0 && _blue == 0);

    // unit-like
    let _square = Square;
}

} // verus!
