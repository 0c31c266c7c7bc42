//! Generic renderer error wrapper.

use vstd::prelude::*;
use vstd::std_specs::convert::FromSpecImpl;
use crate::text::copy_str;

verus! {

/// Generic renderer error wrapper; its message is the wrapped text.
#[derive(Debug)]
pub struct RendererError(pub String);

impl RendererError {
    /// The error's message.
    pub fn to_string(&self) -> (r: String)
        ensures
            r@ == self.0@,
    {
        self.0.clone()
    }
}

impl FromSpecImpl<String> for RendererError {
    open spec fn obeys_from_spec() -> bool {
        true
    }

    open spec fn from_spec(v: String) -> RendererError {
        RendererError(v)
    }
}

impl From<String> for RendererError {
    fn from(value: String) -> (r: RendererError) {
        RendererError(value)
    }
}

impl RendererError {
    /// The error for a message given as `&str`.
    pub fn from_str(value: &str) -> (r: RendererError)
        ensures
            r.0@ == value@,
    {
        RendererError(copy_str(value))
    }
}

} // verus!
