use vstd::prelude::*;

verus! {

/// The greeting served at the root route of the web sample.
pub open spec fn greeting() -> Seq<char> {
    "Hello Rocket"@
}

/// Handler of the root route `/`: answers every request with a fixed greeting.
pub fn index() -> (r: &'static str)
    ensures
        r@ == greeting(),
{
    "Hello Rocket"
}

} // verus!
