//! Points in time and lengths of time. Both are carried through as they are;
//! the library reads the clock and asks nothing else of them.

use vstd::prelude::*;

verus! {

/// `std::time::SystemTime`: a point in time, carried as it is.
#[verifier::external_type_specification]
#[verifier::external_body]
pub struct ExSystemTime(std::time::SystemTime);

/// `Clone` for `SystemTime`: the copy equals the value it was made from.
pub assume_specification[ <std::time::SystemTime as Clone>::clone ](t: &std::time::SystemTime) -> (r:
    std::time::SystemTime)
    ensures
        r == *t,
;

/// `Clone` for `Duration`: the copy equals the value it was made from.
pub assume_specification[ <std::time::Duration as Clone>::clone ](d: &std::time::Duration) -> (r:
    std::time::Duration)
    ensures
        r == *d,
;

/// `SystemTime::now`: the current time of the system clock. Two readings may
/// differ, so nothing is stated of the result.
#[verifier::external_body]
pub(crate) fn now() -> (r: std::time::SystemTime) {
    std::time::SystemTime::now()
}

} // verus!
