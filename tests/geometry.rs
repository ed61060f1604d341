use glutils::attribute::VertexAttribute;
use glutils::error::{GlError, ValidationError};
use glutils::interleave::interleave;
use glutils::model::{DrawCall, ModelBuilder};
use glutils::primitives::Primitive;
use glutils::program::Program;
use glutils::usage::Usage;

fn bits(values: &[f32]) -> Vec<u32> {
    values.iter().map(|v| v.to_bits()).collect()
}

fn program() -> Program {
    Program { gl_object_id: 7 }
}

fn attr(name: &str, values: &[f32], size: i32) -> VertexAttribute {
    VertexAttribute::new(name, bits(values), size, false)
}

fn is_validation(r: &Result<ModelBuilder, GlError>, kind: ValidationError) -> bool {
    matches!(r, Err(GlError::Validation(k)) if *k == kind)
}

#[test]
fn position_stream_must_divide_into_vertices() {
    let r = ModelBuilder::new(program(), Usage::Static, attr("aPos", &[0.0; 7], 3));
    assert!(is_validation(&r, ValidationError::NotDivisible));
    let r = ModelBuilder::new(program(), Usage::Static, attr("aPos", &[0.0; 9], 3));
    assert!(r.is_ok());
}

#[test]
fn color_stream_must_divide_into_vertices() {
    let b = ModelBuilder::new(program(), Usage::Static, attr("aPos", &[0.0; 9], 3)).unwrap();
    let r = b.color_attributes(attr("aCol", &[0.0; 10], 3));
    assert!(is_validation(&r, ValidationError::NotDivisible));
}

#[test]
fn color_stream_must_match_vertex_count() {
    let b = ModelBuilder::new(program(), Usage::Static, attr("aPos", &[0.0; 9], 3)).unwrap();
    let r = b.color_attributes(attr("aCol", &[0.0; 8], 4));
    assert!(is_validation(&r, ValidationError::VertexCountMismatch));
    let b = ModelBuilder::new(program(), Usage::Static, attr("aPos", &[0.0; 9], 3)).unwrap();
    let r = b.color_attributes(attr("aCol", &[0.0; 12], 4));
    assert!(r.is_ok());
}

#[test]
fn index_must_name_an_existing_vertex() {
    let b = ModelBuilder::new(program(), Usage::Static, attr("aPos", &[0.0; 12], 3)).unwrap();
    let r = b.indices(vec![0, 1, 4]);
    assert!(is_validation(&r, ValidationError::IndexOutOfRange));
    let b = ModelBuilder::new(program(), Usage::Static, attr("aPos", &[0.0; 12], 3)).unwrap();
    assert!(b.indices(vec![0, 1, 3]).is_ok());
}

#[test]
fn any_index_fails_without_vertices() {
    let b = ModelBuilder::new(program(), Usage::Static, attr("aPos", &[], 3)).unwrap();
    let r = b.indices(vec![0]);
    assert!(is_validation(&r, ValidationError::IndexOutOfRange));
}

#[test]
fn empty_indices_leave_no_index_buffer() {
    let b = ModelBuilder::new(program(), Usage::Static, attr("aPos", &[0.0; 6], 3)).unwrap();
    let plan = b.indices(vec![]).unwrap().build();
    assert!(plan.indices().is_none());
    let mut model = plan.into_model(3, None);
    model.use_program();
    model.bind();
    assert_eq!(
        model.try_draw_arrays(Primitive::Triangles).unwrap(),
        DrawCall::Arrays { primitive: Primitive::Triangles, count: 2 }
    );
}

#[test]
fn interleaving_alternates_one_group_at_a_time() {
    let p: Vec<u32> = vec![10, 11, 12];
    let c: Vec<u32> = vec![20, 21, 22];
    assert_eq!(interleave(&p, 1, &c, 1), vec![10, 20, 11, 21, 12, 22]);
    let p: Vec<u32> = vec![1, 2, 3, 4, 5, 6];
    let c: Vec<u32> = vec![7, 8, 9];
    assert_eq!(interleave(&p, 2, &c, 1), vec![1, 2, 7, 3, 4, 8, 5, 6, 9]);
}

#[test]
fn build_interleaves_position_and_color() {
    let pos = [0.5f32, -0.5, 0.25];
    let col = [1.0f32, 0.0, 0.75];
    let b = ModelBuilder::new(program(), Usage::Dynamic, attr("aPos", &pos, 1))
        .unwrap()
        .color_attributes(attr("aCol", &col, 1))
        .unwrap();
    let plan = b.build();
    let expected = bits(&[0.5, 1.0, -0.5, 0.0, 0.25, 0.75]);
    assert_eq!(plan.buffer(), &expected);
    assert_eq!(plan.stride(), 8);
    assert_eq!(plan.usage(), Usage::Dynamic);
    assert_eq!(plan.num_vertices(), 3);
}

#[test]
fn build_lays_out_pointers_and_stride() {
    let b = ModelBuilder::new(program(), Usage::Static, attr("aPos", &[0.0; 9], 3))
        .unwrap()
        .color_attributes(VertexAttribute::new("aCol", bits(&[0.0; 12]), 4, true))
        .unwrap();
    assert_eq!(b.stride(), 28);
    let plan = b.build();
    assert_eq!(plan.stride(), 28);
    let pointers = plan.pointers();
    assert_eq!(pointers.len(), 2);
    assert_eq!(pointers[0].name(), "aPos");
    assert_eq!(pointers[0].component_size(), 3);
    assert!(!pointers[0].normalized());
    assert_eq!(pointers[0].offset(), 0);
    assert_eq!(pointers[1].name(), "aCol");
    assert_eq!(pointers[1].component_size(), 4);
    assert!(pointers[1].normalized());
    assert_eq!(pointers[1].offset(), 12);
}

#[test]
fn single_stream_is_copied_tightly() {
    let pos = [1.0f32, 2.0, 3.0, 4.0, 5.0, 6.0];
    let b = ModelBuilder::new(program(), Usage::Stream, attr("aPos", &pos, 2)).unwrap();
    assert_eq!(b.stride(), 8);
    let plan = b.build();
    assert_eq!(plan.buffer(), &bits(&pos));
    assert_eq!(plan.pointers().len(), 1);
    assert_eq!(plan.program(), program());
}

#[test]
fn draw_before_bind_is_a_usage_error() {
    let plan = ModelBuilder::new(program(), Usage::Static, attr("aPos", &[0.0; 9], 3))
        .unwrap()
        .build();
    let mut model = plan.into_model(1, None);
    assert!(matches!(model.try_draw_arrays(Primitive::Triangles), Err(GlError::Usage)));
    model.bind();
    assert!(matches!(model.try_draw_arrays(Primitive::Triangles), Err(GlError::Usage)));
    model.unbind();
    model.use_program();
    assert!(matches!(model.try_draw_arrays(Primitive::Triangles), Err(GlError::Usage)));
    model.bind();
    assert!(model.try_draw_arrays(Primitive::Triangles).is_ok());
    model.unbind();
    assert!(matches!(model.try_draw_arrays(Primitive::Triangles), Err(GlError::Usage)));
}

#[test]
fn unindexed_geometry_draws_all_vertices() {
    let plan = ModelBuilder::new(program(), Usage::Static, attr("aPos", &[0.0; 15], 3))
        .unwrap()
        .build();
    let mut model = plan.into_model(1, None);
    model.use_program();
    model.bind();
    assert_eq!(
        model.try_draw_arrays(Primitive::Triangles).unwrap(),
        DrawCall::Arrays { primitive: Primitive::Triangles, count: 5 }
    );
}

#[test]
fn indexed_quad_draws_two_triangles() {
    let pos = [0.5f32, 0.5, 0.0, 0.5, -0.5, 0.0, -0.5, -0.5, 0.0, -0.5, 0.5, 0.0];
    let plan = ModelBuilder::new(program(), Usage::Static, attr("aPos", &pos, 3))
        .unwrap()
        .indices(vec![0, 1, 3, 1, 2, 3])
        .unwrap()
        .build();
    assert_eq!(plan.num_vertices(), 4);
    assert_eq!(plan.indices().as_ref().unwrap(), &vec![0, 1, 3, 1, 2, 3]);
    let mut model = plan.into_model(2, Some(5));
    assert_eq!(model.vertex_array_object(), 2);
    assert_eq!(model.element_buffer_object(), Some(5));
    assert_eq!(model.program(), program());
    model.bind();
    model.use_program();
    assert_eq!(
        model.try_draw_arrays(Primitive::Triangles).unwrap(),
        DrawCall::Elements { primitive: Primitive::Triangles, count: 6 }
    );
}

#[test]
fn attribute_keeps_its_description() {
    let a = VertexAttribute::new("aCol", vec![1, 2, 3, 4], 2, true);
    assert_eq!(a.name(), "aCol");
    assert_eq!(a.values(), &vec![1, 2, 3, 4]);
    assert_eq!(a.component_size(), 2);
    assert!(a.normalized());
}

#[test]
fn usage_defaults_to_static() {
    assert_eq!(Usage::default(), Usage::Static);
}
