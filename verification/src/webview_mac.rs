use vstd::prelude::*;

verus! {

/// WebKit runs on the application's own run loop, so there is nothing to pump.
pub fn pump() {
}

} // verus!
