//! Results that must be consumed: matched, propagated, ignored or unwrapped.

use vstd::pervasive::unreached;
use vstd::prelude::*;

verus! {

/// Always succeeds, with the value 1.
pub fn errors_success() -> (result: Result<i32, String>)
    ensures
        result == Ok::<i32, String>(1),
{
    Ok(1)
}

/// Always fails, with the message `Uh oh`.
pub fn _errors_failure() -> (result: Result<i32, String>)
    ensures
        result matches Err(message) && message@ == "Uh oh"@,
{
    Err("Uh oh".to_string())
}

/// One more than what `errors_success` gives. With `?` an error would go
/// straight to the caller; since there is none, the result is 2.
pub fn propagation() -> (result: Result<i32, String>)
    ensures
        result == Ok::<i32, String>(2),
{
    let y: i32 = errors_success()?;
    Ok(y + 1)
}

/// Consumes a successful result in each of the ways there are.
pub fn errors() {
    // results must be consumed
    let _x1: i32 = match errors_success() {
        Ok(value) => value,
        Err(_) => unreached(),
    };
    assert(_x1 == 1);

    // ignore a result
    let _ = propagation();

    // cause a panic on error
    // better be real sure
    let _x2: i32 = errors_success().unwrap();
    let _x3: i32 = errors_success().expect("Ugh");
    assert(_x2 == 1 && _x3 == 1);
}

} // verus!
