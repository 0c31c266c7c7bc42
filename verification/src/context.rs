//! Context supplied to the renderer about the target environment.

use vstd::prelude::*;

verus! {

/// Context supplied to the renderer about the target environment.
#[derive(Clone, Debug, Default, PartialEq, Eq)]
pub struct RenderContext {
    pub target: Option<String>,
}

impl RenderContext {
    pub fn new(target: Option<String>) -> (r: Self)
        ensures
            r.target == target,
    {
        Self { target }
    }
}

} // verus!
