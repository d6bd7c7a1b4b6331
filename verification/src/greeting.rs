//! The single UI-facing operation: format a greeting for a caller's name.

use vstd::prelude::*;
use vstd::string::StringExecFns;

verus! {

/// Builds the greeting shown to the UI: the caller's name between the two
/// fixed literal pieces, verbatim.
pub fn greet(name: &str) -> (r: String)
    ensures
        r@ == "Hello, "@ + name@ + "! You've been greeted from Rust!"@,
{
    String::from_str("Hello, ").concat(name).concat("! You've been greeted from Rust!")
}

} // verus!
