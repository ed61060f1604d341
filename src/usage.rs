use vstd::prelude::*;

verus! {

/// How often a buffer's contents are expected to be respecified; a hint that
/// the backend may use to place the buffer.
#[derive(Clone, Copy, Debug, PartialEq, Eq, Structural)]
pub enum Usage {
    /// Written once, drawn many times.
    Static,
    /// Respecified for every draw.
    Stream,
    /// Respecified often.
    Dynamic,
}

impl Default for Usage {
    fn default() -> (r: Self)
        ensures
            r == Usage::Static,
    {
        Usage::Static
    }
}

} // verus!
