use vstd::prelude::*;

use crate::attribute::{AttributeView, VertexAttribute, FLOAT_BYTES};
use crate::error::{GlError, GlErrorView, ValidationError};
use crate::interleave::{interleave, interleaved, lemma_interleaved_len};
use vstd::arithmetic::div_mod::lemma_fundamental_div_mod;
use crate::primitives::Primitive;
use crate::program::Program;
use crate::usage::Usage;

verus! {

/// What a [`ModelBuilder`] holds.
pub struct BuilderView {
    pub program: Program,
    pub usage: Usage,
    pub position: AttributeView,
    pub color: Option<AttributeView>,
    pub indices: Option<Seq<u32>>,
}

/// Every index names one of the first `n` vertices.
pub open spec fn indices_in_range(indices: Seq<u32>, n: int) -> bool {
    forall|i: int| 0 <= i < indices.len() ==> indices[i] < n
}

impl BuilderView {
    /// The streams split into whole vertices, agree on the vertex count, and
    /// every index names an existing vertex.
    pub open spec fn wf(self) -> bool {
        &&& self.position.component_size > 0
        &&& self.position.divisible()
        &&& self.color matches Some(c) ==> {
            &&& c.component_size > 0
            &&& c.divisible()
            &&& c.vertex_count() == self.position.vertex_count()
        }
        &&& self.indices matches Some(idx) ==> idx.len() > 0 && indices_in_range(
            idx,
            self.position.vertex_count(),
        )
    }

    /// The number of vertices the geometry describes.
    pub open spec fn vertex_count(self) -> int {
        self.position.vertex_count()
    }

    /// Byte distance between the starts of consecutive vertices.
    pub open spec fn stride(self) -> int {
        FLOAT_BYTES * (self.position.component_size + match self.color {
            Some(c) => c.component_size,
            None => 0,
        })
    }

    /// The number of components over all streams.
    pub open spec fn total_element_count(self) -> int {
        self.position.values.len() + match self.color {
            Some(c) => c.values.len() as int,
            None => 0,
        }
    }
}

/// What `ModelBuilder::new` yields.
pub open spec fn new_outcome(program: Program, usage: Usage, position: AttributeView) -> Result<
    BuilderView,
    GlErrorView,
> {
    if position.divisible() {
        Ok(BuilderView { program, usage, position, color: None, indices: None })
    } else {
        Err(GlErrorView::Validation(ValidationError::NotDivisible))
    }
}

/// What `ModelBuilder::color_attributes` yields.
pub open spec fn color_outcome(b: BuilderView, color: AttributeView) -> Result<
    BuilderView,
    GlErrorView,
> {
    if !color.divisible() {
        Err(GlErrorView::Validation(ValidationError::NotDivisible))
    } else if color.vertex_count() != b.vertex_count() {
        Err(GlErrorView::Validation(ValidationError::VertexCountMismatch))
    } else {
        Ok(
            BuilderView {
                program: b.program,
                usage: b.usage,
                position: b.position,
                color: Some(color),
                indices: b.indices,
            },
        )
    }
}

/// What `ModelBuilder::indices` yields.
pub open spec fn indices_outcome(b: BuilderView, indices: Seq<u32>) -> Result<
    BuilderView,
    GlErrorView,
> {
    if indices.len() == 0 {
        Ok(b)
    } else if !indices_in_range(indices, b.vertex_count()) {
        Err(GlErrorView::Validation(ValidationError::IndexOutOfRange))
    } else {
        Ok(
            BuilderView {
                program: b.program,
                usage: b.usage,
                position: b.position,
                color: b.color,
                indices: Some(indices),
            },
        )
    }
}

/// A builder result as values.
pub open spec fn builder_result(r: Result<ModelBuilder, GlError>) -> Result<
    BuilderView,
    GlErrorView,
> {
    match r {
        Ok(b) => Ok(b@),
        Err(e) => Err(e@),
    }
}

/// Accumulates the streams and indices of one geometry and validates them as
/// they arrive; `build` consumes it.
#[derive(Debug)]
pub struct ModelBuilder {
    position_attributes: VertexAttribute,
    color_attributes: Option<VertexAttribute>,
    indices: Option<Vec<u32>>,
    usage: Usage,
    program: Program,
}

impl View for ModelBuilder {
    type V = BuilderView;

    closed spec fn view(&self) -> BuilderView {
        BuilderView {
            program: self.program,
            usage: self.usage,
            position: self.position_attributes@,
            color: match self.color_attributes {
                Some(c) => Some(c@),
                None => None,
            },
            indices: match self.indices {
                Some(v) => Some(v@),
                None => None,
            },
        }
    }
}

impl ModelBuilder {
    #[verifier::type_invariant]
    closed spec fn inv(&self) -> bool {
        self@.wf()
    }

    /// Starts a geometry drawn with `program` from the position stream
    /// `position_attributes`; the stream must split into whole vertices.
    pub fn new(program: Program, usage: Usage, position_attributes: VertexAttribute) -> (r: Result<
        Self,
        GlError,
    >)
        ensures
            builder_result(r) == new_outcome(program, usage, position_attributes@),
    {
        let size = position_attributes.component_size();
        if position_attributes.values().len() % (size as usize) != 0 {
            return Err(GlError::Validation(ValidationError::NotDivisible));
        }
        Ok(
            ModelBuilder {
                position_attributes,
                color_attributes: None,
                indices: None,
                usage,
                program,
            },
        )
    }

    /// Adds the index sequence `indices`; every index must name an existing
    /// vertex. An empty sequence leaves the builder as it is.
    pub fn indices(self, indices: Vec<u32>) -> (r: Result<Self, GlError>)
        ensures
            builder_result(r) == indices_outcome(self@, indices@),
    {
        proof {
            use_type_invariant(&self);
        }
        if indices.len() == 0 {
            return Ok(self);
        }
        let size = self.position_attributes.component_size();
        let num_vertices = self.position_attributes.values().len() / (size as usize);
        let mut i: usize = 0;
        while i < indices.len()
            invariant
                i <= indices@.len(),
                num_vertices == self@.vertex_count(),
                indices_in_range(indices@.subrange(0, i as int), num_vertices as int),
            decreases indices.len() - i,
        {
            if indices[i] as usize >= num_vertices {
                return Err(GlError::Validation(ValidationError::IndexOutOfRange));
            }
            i += 1;
            assert(indices_in_range(indices@.subrange(0, i as int), num_vertices as int)) by {
                assert forall|k: int| 0 <= k < i implies indices@.subrange(0, i as int)[k]
                    < num_vertices by {
                    if k < i - 1 {
                        assert(indices@.subrange(0, i as int)[k] == indices@.subrange(
                            0,
                            i - 1,
                        )[k]);
                    }
                }
            }
        }
        assert(indices@.subrange(0, i as int) =~= indices@);
        let mut builder = self;
        builder.indices = Some(indices);
        Ok(builder)
    }

    /// Adds the color stream `vertices`; it must split into whole vertices, as
    /// many as the position stream has.
    pub fn color_attributes(self, vertices: VertexAttribute) -> (r: Result<Self, GlError>)
        ensures
            builder_result(r) == color_outcome(self@, vertices@),
    {
        proof {
            use_type_invariant(&self);
        }
        let size = vertices.component_size();
        if vertices.values().len() % (size as usize) != 0 {
            return Err(GlError::Validation(ValidationError::NotDivisible));
        }
        let pos_size = self.position_attributes.component_size();
        let num_vertices = self.position_attributes.values().len() / (pos_size as usize);
        if vertices.values().len() / (size as usize) != num_vertices {
            return Err(GlError::Validation(ValidationError::VertexCountMismatch));
        }
        let mut builder = self;
        builder.color_attributes = Some(vertices);
        Ok(builder)
    }

    /// Byte distance between the starts of consecutive vertices in the
    /// interleaved buffer.
    pub fn stride(&self) -> (r: u64)
        ensures
            r == self@.stride(),
    {
        proof {
            use_type_invariant(self);
        }
        let pos_size = self.position_attributes.component_size() as u64;
        let col_size: u64 = match &self.color_attributes {
            Some(c) => c.component_size() as u64,
            None => 0,
        };
        FLOAT_BYTES * (pos_size + col_size)
    }

    /// Packs the streams into one interleaved buffer and lays out how the
    /// pipeline reads it: the position stream at offset zero, the color
    /// stream (if any) right after it, both with the same stride.
    pub fn build(self) -> (r: BuildPlan)
        ensures
            r@ == plan_of(self@),
            r@.buffer.len() == self@.total_element_count(),
    {
        proof {
            use_type_invariant(&self);
            let b = self@;
            if let Some(c) = b.color {
                let n = b.vertex_count() as nat;
                let (ps, cs) = (b.position.component_size as nat, c.component_size as nat);
                lemma_fundamental_div_mod(b.position.values.len() as int, ps as int);
                lemma_fundamental_div_mod(c.values.len() as int, cs as int);
                assert(n * ps == b.position.values.len() && n * cs == c.values.len());
                lemma_interleaved_len(b.position.values, ps, c.values, cs, n);
                assert(n * (ps + cs) == n * ps + n * cs) by (nonlinear_arith);
            }
        }
        let stride = self.stride();
        let pos = &self.position_attributes;
        let pos_size = pos.component_size();
        let num_vertices = pos.values().len() / (pos_size as usize);
        let mut pointers: Vec<AttributePointer> = Vec::new();
        pointers.push(AttributePointer::of(pos, 0));
        let buffer = match &self.color_attributes {
            None => pos.values().clone(),
            Some(col) => {
                let col_size = col.component_size();
                pointers.push(AttributePointer::of(col, FLOAT_BYTES * (pos_size as u64)));
                interleave(pos.values(), pos_size as usize, col.values(), col_size as usize)
            },
        };
        assert(pointers@.map_values(|p: AttributePointer| p@) =~= pointers_of(self@));
        BuildPlan {
            program: self.program,
            usage: self.usage,
            buffer,
            stride,
            pointers,
            indices: self.indices,
            num_vertices,
        }
    }
}

/// How the pipeline reads one stream out of the interleaved buffer.
pub struct PointerView {
    pub name: Seq<char>,
    pub component_size: int,
    pub normalized: bool,
    pub offset: int,
}

/// The pointer description of stream `a`, starting `offset` bytes into each vertex.
pub open spec fn pointer_of(a: AttributeView, offset: int) -> PointerView {
    PointerView {
        name: a.name,
        component_size: a.component_size,
        normalized: a.normalized,
        offset,
    }
}

/// The pointer descriptions of a builder's streams, position first.
pub open spec fn pointers_of(b: BuilderView) -> Seq<PointerView> {
    match b.color {
        None => seq![pointer_of(b.position, 0)],
        Some(c) => seq![
            pointer_of(b.position, 0),
            pointer_of(c, FLOAT_BYTES * b.position.component_size),
        ],
    }
}

/// How the pipeline reads one stream: its shader input name, component count,
/// normalization flag and byte offset within a vertex.
#[derive(Debug)]
pub struct AttributePointer {
    name: String,
    component_size: i32,
    normalized: bool,
    offset: u64,
}

impl View for AttributePointer {
    type V = PointerView;

    closed spec fn view(&self) -> PointerView {
        PointerView {
            name: self.name@,
            component_size: self.component_size as int,
            normalized: self.normalized,
            offset: self.offset as int,
        }
    }
}

impl AttributePointer {
    fn of(a: &VertexAttribute, offset: u64) -> (r: Self)
        ensures
            r@ == pointer_of(a@, offset as int),
    {
        AttributePointer {
            name: a.name().to_owned(),
            component_size: a.component_size(),
            normalized: a.normalized(),
            offset,
        }
    }

    pub fn name(&self) -> (r: &str)
        ensures
            r@ == self@.name,
    {
        self.name.as_str()
    }

    pub fn component_size(&self) -> (r: i32)
        ensures
            r as int == self@.component_size,
    {
        self.component_size
    }

    pub fn normalized(&self) -> (r: bool)
        ensures
            r == self@.normalized,
    {
        self.normalized
    }

    pub fn offset(&self) -> (r: u64)
        ensures
            r as int == self@.offset,
    {
        self.offset
    }
}

/// What a [`BuildPlan`] holds.
pub struct PlanView {
    pub program: Program,
    pub usage: Usage,
    pub buffer: Seq<u32>,
    pub stride: int,
    pub pointers: Seq<PointerView>,
    pub indices: Option<Seq<u32>>,
    pub vertex_count: int,
}

/// What `ModelBuilder::build` yields for a builder.
pub open spec fn plan_of(b: BuilderView) -> PlanView {
    PlanView {
        program: b.program,
        usage: b.usage,
        buffer: match b.color {
            None => b.position.values,
            Some(c) => interleaved(
                b.position.values,
                b.position.component_size as nat,
                c.values,
                c.component_size as nat,
                b.vertex_count() as nat,
            ),
        },
        stride: b.stride(),
        pointers: pointers_of(b),
        indices: b.indices,
        vertex_count: b.vertex_count(),
    }
}

/// A validated geometry, ready to be handed to the backend: the interleaved
/// vertex buffer, the layout of its streams, and the optional index sequence.
#[derive(Debug)]
pub struct BuildPlan {
    program: Program,
    usage: Usage,
    buffer: Vec<u32>,
    stride: u64,
    pointers: Vec<AttributePointer>,
    indices: Option<Vec<u32>>,
    num_vertices: usize,
}

impl View for BuildPlan {
    type V = PlanView;

    closed spec fn view(&self) -> PlanView {
        PlanView {
            program: self.program,
            usage: self.usage,
            buffer: self.buffer@,
            stride: self.stride as int,
            pointers: self.pointers@.map_values(|p: AttributePointer| p@),
            indices: match self.indices {
                Some(v) => Some(v@),
                None => None,
            },
            vertex_count: self.num_vertices as int,
        }
    }
}

impl BuildPlan {
    pub fn program(&self) -> (r: Program)
        ensures
            r == self@.program,
    {
        self.program
    }

    pub fn usage(&self) -> (r: Usage)
        ensures
            r == self@.usage,
    {
        self.usage
    }

    /// The interleaved vertex components, as IEEE-754 bit patterns.
    pub fn buffer(&self) -> (r: &Vec<u32>)
        ensures
            r@ == self@.buffer,
    {
        &self.buffer
    }

    pub fn stride(&self) -> (r: u64)
        ensures
            r as int == self@.stride,
    {
        self.stride
    }

    /// The streams' layouts, position first.
    pub fn pointers(&self) -> (r: &Vec<AttributePointer>)
        ensures
            r@.map_values(|p: AttributePointer| p@) == self@.pointers,
    {
        &self.pointers
    }

    pub fn indices(&self) -> (r: &Option<Vec<u32>>)
        ensures
            match r {
                Some(v) => self@.indices == Some(v@),
                None => self@.indices is None,
            },
    {
        &self.indices
    }

    pub fn num_vertices(&self) -> (r: usize)
        ensures
            r as int == self@.vertex_count,
    {
        self.num_vertices
    }

    /// The geometry made of this plan once the backend holds it in the vertex
    /// array `vertex_array_object` and, when the plan has indices, the index
    /// buffer `element_buffer_object`.
    pub fn into_model(self, vertex_array_object: u32, element_buffer_object: Option<u32>) -> (r:
        Model)
        requires
            element_buffer_object is Some <==> self@.indices is Some,
        ensures
            r@ == model_of(self@, vertex_array_object, element_buffer_object),
    {
        let num_indices: usize = match &self.indices {
            Some(v) => v.len(),
            None => 0,
        };
        Model {
            vertex_array_object,
            element_buffer_object,
            program: self.program,
            num_vertices: self.num_vertices,
            num_indices,
            program_active: false,
            vbo_bound: false,
            ebo_bound: false,
        }
    }
}

/// What a [`Model`] holds.
pub struct ModelView {
    pub vertex_array_object: u32,
    pub element_buffer_object: Option<u32>,
    pub program: Program,
    pub num_vertices: usize,
    pub num_indices: usize,
    pub program_active: bool,
    pub vbo_bound: bool,
    pub ebo_bound: bool,
}

/// The geometry made of plan `p`: nothing bound, pipeline not active.
pub open spec fn model_of(p: PlanView, vertex_array_object: u32, element_buffer_object: Option<
    u32,
>) -> ModelView {
    ModelView {
        vertex_array_object,
        element_buffer_object,
        program: p.program,
        num_vertices: p.vertex_count as usize,
        num_indices: match p.indices {
            Some(v) => v.len() as usize,
            None => 0,
        },
        program_active: false,
        vbo_bound: false,
        ebo_bound: false,
    }
}

/// `m` after its pipeline is made active.
pub open spec fn activated(m: ModelView) -> ModelView {
    ModelView { program_active: true, ..m }
}

/// `m` after its vertex array, and its index buffer if it has one, are bound.
pub open spec fn bound(m: ModelView) -> ModelView {
    ModelView { vbo_bound: true, ebo_bound: m.element_buffer_object is Some, ..m }
}

/// `m` after its vertex array and index buffer are unbound.
pub open spec fn unbound(m: ModelView) -> ModelView {
    ModelView { vbo_bound: false, ebo_bound: false, ..m }
}

/// A draw the backend is to issue.
#[derive(Clone, Copy, Debug, PartialEq, Eq, Structural)]
pub enum DrawCall {
    /// Draw `count` elements of the bound index buffer.
    Elements { primitive: Primitive, count: usize },
    /// Draw `count` vertices of the bound vertex array, starting at the first.
    Arrays { primitive: Primitive, count: usize },
}

/// What a draw of `m` yields: a usage error unless the geometry is bound and
/// its pipeline active; else an indexed draw when its index buffer is bound,
/// a draw of all its vertices when it has none.
pub open spec fn draw_outcome(m: ModelView, primitive: Primitive) -> Result<DrawCall, GlErrorView> {
    if !(m.vbo_bound && m.program_active) {
        Err(GlErrorView::Usage)
    } else if m.element_buffer_object is Some && m.ebo_bound {
        Ok(DrawCall::Elements { primitive, count: m.num_indices })
    } else {
        Ok(DrawCall::Arrays { primitive, count: m.num_vertices })
    }
}

/// A draw result as values.
pub open spec fn draw_result(r: Result<DrawCall, GlError>) -> Result<DrawCall, GlErrorView> {
    match r {
        Ok(d) => Ok(d),
        Err(e) => Err(e@),
    }
}

/// A geometry the backend holds, with the bind and activate state that guards
/// its draws.
#[derive(Debug)]
pub struct Model {
    vertex_array_object: u32,
    element_buffer_object: Option<u32>,
    program: Program,
    num_vertices: usize,
    num_indices: usize,
    program_active: bool,
    vbo_bound: bool,
    ebo_bound: bool,
}

impl View for Model {
    type V = ModelView;

    closed spec fn view(&self) -> ModelView {
        ModelView {
            vertex_array_object: self.vertex_array_object,
            element_buffer_object: self.element_buffer_object,
            program: self.program,
            num_vertices: self.num_vertices,
            num_indices: self.num_indices,
            program_active: self.program_active,
            vbo_bound: self.vbo_bound,
            ebo_bound: self.ebo_bound,
        }
    }
}

impl Model {
    /// Decides the draw of `primitive`; the geometry must be bound and its
    /// pipeline active.
    pub fn try_draw_arrays(&mut self, primitive: Primitive) -> (r: Result<DrawCall, GlError>)
        ensures
            final(self)@ == old(self)@,
            draw_result(r) == draw_outcome(old(self)@, primitive),
    {
        if !(self.vbo_bound && self.program_active) {
            return Err(GlError::Usage);
        }
        if self.element_buffer_object.is_some() && self.ebo_bound {
            Ok(DrawCall::Elements { primitive, count: self.num_indices })
        } else {
            Ok(DrawCall::Arrays { primitive, count: self.num_vertices })
        }
    }

    /// Records that the pipeline is active for the draws that follow.
    pub fn use_program(&mut self)
        ensures
            final(self)@ == activated(old(self)@),
    {
        self.program_active = true;
    }

    /// Records that the vertex array, and the index buffer if there is one,
    /// are bound.
    pub fn bind(&mut self)
        ensures
            final(self)@ == bound(old(self)@),
    {
        self.vbo_bound = true;
        self.ebo_bound = self.element_buffer_object.is_some();
    }

    /// Records that the vertex array and index buffer are unbound.
    pub fn unbind(&mut self)
        ensures
            final(self)@ == unbound(old(self)@),
    {
        self.vbo_bound = false;
        self.ebo_bound = false;
    }

    pub fn vertex_array_object(&self) -> (r: u32)
        ensures
            r == self@.vertex_array_object,
    {
        self.vertex_array_object
    }

    pub fn element_buffer_object(&self) -> (r: Option<u32>)
        ensures
            r == self@.element_buffer_object,
    {
        self.element_buffer_object
    }

    pub fn program(&self) -> (r: Program)
        ensures
            r == self@.program,
    {
        self.program
    }
}

/// What `ModelBuilder::new`, then `color_attributes` when a color stream is
/// given, then `indices`, then `build` yield.
pub open spec fn build_chain(
    program: Program,
    usage: Usage,
    position: AttributeView,
    color: Option<AttributeView>,
    indices: Seq<u32>,
) -> Result<PlanView, GlErrorView> {
    let after_color = match new_outcome(program, usage, position) {
        Ok(b) => match color {
            Some(c) => color_outcome(b, c),
            None => Ok(b),
        },
        Err(e) => Err(e),
    };
    match after_color {
        Ok(b) => match indices_outcome(b, indices) {
            Ok(b2) => Ok(plan_of(b2)),
            Err(e) => Err(e),
        },
        Err(e) => Err(e),
    }
}

/// Building streams that agree on their vertex count, without indices,
/// succeeds exactly when every stream present splits into whole vertices.
pub proof fn lemma_build_succeeds_iff_divisible(
    program: Program,
    usage: Usage,
    position: AttributeView,
    color: Option<AttributeView>,
)
    requires
        position.component_size > 0,
        color matches Some(c) ==> c.component_size > 0 && c.vertex_count()
            == position.vertex_count(),
    ensures
        build_chain(program, usage, position, color, Seq::empty()) is Ok <==> (position.divisible()
            && (color matches Some(c) ==> c.divisible())),
{
}

/// Building a position and a color stream that both split into whole
/// vertices fails exactly when their vertex counts differ, and then with a
/// validation error.
pub proof fn lemma_build_fails_iff_vertex_counts_differ(
    program: Program,
    usage: Usage,
    position: AttributeView,
    color: AttributeView,
)
    requires
        position.component_size > 0,
        color.component_size > 0,
        position.divisible(),
        color.divisible(),
    ensures
        build_chain(program, usage, position, Some(color), Seq::empty()) is Err <==> color.vertex_count()
            != position.vertex_count(),
        build_chain(program, usage, position, Some(color), Seq::empty()) is Err ==> build_chain(
            program,
            usage,
            position,
            Some(color),
            Seq::empty(),
        )->Err_0 == GlErrorView::Validation(ValidationError::VertexCountMismatch),
{
}

/// With valid streams, building fails exactly when some index is not below
/// the vertex count, and then with a validation error; an empty index
/// sequence never fails and leaves the geometry without an index buffer.
pub proof fn lemma_build_fails_iff_index_out_of_range(
    program: Program,
    usage: Usage,
    position: AttributeView,
    color: Option<AttributeView>,
    indices: Seq<u32>,
)
    requires
        position.component_size > 0,
        position.divisible(),
        color matches Some(c) ==> c.component_size > 0 && c.divisible() && c.vertex_count()
            == position.vertex_count(),
    ensures
        build_chain(program, usage, position, color, indices) is Err <==> exists|i: int|
            0 <= i < indices.len() && indices[i] >= position.vertex_count(),
        build_chain(program, usage, position, color, indices) is Err ==> build_chain(
            program,
            usage,
            position,
            color,
            indices,
        )->Err_0 == GlErrorView::Validation(ValidationError::IndexOutOfRange),
        indices.len() == 0 ==> build_chain(program, usage, position, color, indices) is Ok
            && build_chain(program, usage, position, color, indices)->Ok_0.indices is None,
{
}

/// A geometry fresh from its plan refuses to draw, with a usage error, until
/// it is both bound and its pipeline made active.
pub proof fn lemma_draw_before_bind_fails(
    p: PlanView,
    vertex_array_object: u32,
    element_buffer_object: Option<u32>,
    primitive: Primitive,
)
    ensures
        draw_outcome(model_of(p, vertex_array_object, element_buffer_object), primitive) == Err::<
            DrawCall,
            GlErrorView,
        >(GlErrorView::Usage),
        draw_outcome(activated(model_of(p, vertex_array_object, element_buffer_object)), primitive)
            == Err::<DrawCall, GlErrorView>(GlErrorView::Usage),
        draw_outcome(bound(model_of(p, vertex_array_object, element_buffer_object)), primitive)
            == Err::<DrawCall, GlErrorView>(GlErrorView::Usage),
{
}

/// A geometry built from N position vertices and no indices, once bound with
/// its pipeline active, draws exactly its N vertices; built with M indices it
/// draws exactly M indexed elements.
pub proof fn lemma_draw_count_round_trip(
    program: Program,
    usage: Usage,
    position: AttributeView,
    color: Option<AttributeView>,
    indices: Seq<u32>,
    vertex_array_object: u32,
    element_buffer_object: Option<u32>,
    primitive: Primitive,
)
    requires
        build_chain(program, usage, position, color, indices) is Ok,
        element_buffer_object is Some <==> indices.len() > 0,
        position.values.len() <= usize::MAX,
        indices.len() <= usize::MAX,
    ensures
        ({
            let plan = build_chain(program, usage, position, color, indices)->Ok_0;
            let m = bound(activated(model_of(plan, vertex_array_object, element_buffer_object)));
            draw_outcome(m, primitive) == if indices.len() == 0 {
                Ok::<DrawCall, GlErrorView>(
                    DrawCall::Arrays { primitive, count: position.vertex_count() as usize },
                )
            } else {
                Ok::<DrawCall, GlErrorView>(
                    DrawCall::Elements { primitive, count: indices.len() as usize },
                )
            }
        }),
{
}

} // verus!
