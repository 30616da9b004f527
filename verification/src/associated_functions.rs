//! Functions that belong to a type.

use vstd::prelude::*;

verus! {

/// A dog.
pub struct Dog {
    pub is_good_boy: bool,
}

impl Dog {
    /// What a dog says, good boy or not.
    pub fn bark(&self) -> (sound: String)
        ensures
            sound@ == "ruf"@,
    {
        "ruf".to_string()
    }
}

/// Calls a function through the value it belongs to.
pub fn associated_functions() {
    let dog = Dog { is_good_boy: true };
    let _sound = dog.bark();
    assert(_sound@ == "ruf"@);
}

} // verus!
