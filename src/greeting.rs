//! A value that owns its data outlives the function that made it.
use vstd::prelude::*;
use vstd::string::StringExecFns;

verus! {

/// A new `String` holding "hello", handed to the caller by value.
pub fn _safe() -> (r: String)
    ensures
        r@ == "hello"@,
{
    let s = String::from_str("hello");
    s
}

} // verus!
