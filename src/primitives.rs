use vstd::prelude::*;

verus! {

/// The kind of primitive a draw call assembles from its vertices.
#[derive(Clone, Copy, Debug, PartialEq, Eq, Structural)]
pub enum Primitive {
    Triangles,
}

} // verus!
