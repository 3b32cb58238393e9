use vstd::prelude::*;

verus! {

/// A member the service sends as an object whose contents are not read.
#[derive(Debug, PartialEq, PartialOrd, Hash, Default)]
pub struct Empty {}

} // verus!
