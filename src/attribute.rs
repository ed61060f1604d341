use vstd::prelude::*;

verus! {

/// Size in bytes of one vertex component (a 32-bit float).
pub const FLOAT_BYTES: u64 = 4;

/// What a [`VertexAttribute`] holds, as mathematical values.
pub struct AttributeView {
    pub name: Seq<char>,
    pub values: Seq<u32>,
    pub component_size: int,
    pub normalized: bool,
}

impl AttributeView {
    /// The stream splits into whole vertices.
    pub open spec fn divisible(self) -> bool {
        self.values.len() as int % self.component_size == 0
    }

    /// The number of whole vertices in the stream.
    pub open spec fn vertex_count(self) -> int {
        self.values.len() as int / self.component_size
    }
}

/// One named per-vertex data stream (a position, a color).
///
/// `values` holds the IEEE-754 bit patterns of the stream's 32-bit float
/// components in order; `component_size` consecutive components make up the
/// stream's part of one vertex.
#[derive(Debug)]
pub struct VertexAttribute {
    name: String,
    values: Vec<u32>,
    component_size: i32,
    normalized: bool,
}

impl View for VertexAttribute {
    type V = AttributeView;

    closed spec fn view(&self) -> AttributeView {
        AttributeView {
            name: self.name@,
            values: self.values@,
            component_size: self.component_size as int,
            normalized: self.normalized,
        }
    }
}

impl VertexAttribute {
    #[verifier::type_invariant]
    closed spec fn inv(&self) -> bool {
        self.component_size > 0
    }

    /// Describes the stream `values` under the shader input name `attr`.
    pub fn new(attr: &str, values: Vec<u32>, component_size: i32, normalized: bool) -> (r: Self)
        requires
            component_size > 0,
        ensures
            r@ == (AttributeView {
                name: attr@,
                values: values@,
                component_size: component_size as int,
                normalized,
            }),
    {
        VertexAttribute { name: attr.to_owned(), values, component_size, normalized }
    }

    pub fn name(&self) -> (r: &str)
        ensures
            r@ == self@.name,
    {
        self.name.as_str()
    }

    pub fn values(&self) -> (r: &Vec<u32>)
        ensures
            r@ == self@.values,
    {
        &self.values
    }

    pub fn component_size(&self) -> (r: i32)
        ensures
            r as int == self@.component_size,
            r > 0,
    {
        proof {
            use_type_invariant(self);
        }
        self.component_size
    }

    pub fn normalized(&self) -> (r: bool)
        ensures
            r == self@.normalized,
    {
        self.normalized
    }
}

} // verus!
