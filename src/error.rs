use vstd::prelude::*;

use crate::shader::ShaderType;

verus! {

/// Why a geometry's data was rejected.
#[derive(Clone, Copy, Debug, PartialEq, Eq, Structural)]
pub enum ValidationError {
    /// A stream's length is not a multiple of its component size.
    NotDivisible,
    /// Two streams describe different numbers of vertices.
    VertexCountMismatch,
    /// An index names a vertex that does not exist.
    IndexOutOfRange,
}

/// Every failure the library reports.
#[derive(Debug)]
pub enum GlError {
    /// A shader stage failed to compile; `log` is the backend's trimmed diagnostic.
    Compile { file_name: String, stage: ShaderType, log: String },
    /// A pipeline failed to link; `log` is the backend's trimmed diagnostic.
    Link { log: String },
    /// The pipeline has no active attribute of this name.
    AttributeNotFound { name: String },
    /// The pipeline has no active uniform of this name.
    UniformNotFound { name: String },
    /// Geometry data was rejected.
    Validation(ValidationError),
    /// A draw was attempted while the geometry was not bound or its pipeline not active.
    Usage,
}

/// What a [`GlError`] says, with its texts as character sequences.
pub enum GlErrorView {
    Compile { file_name: Seq<char>, stage: ShaderType, log: Seq<char> },
    Link { log: Seq<char> },
    AttributeNotFound { name: Seq<char> },
    UniformNotFound { name: Seq<char> },
    Validation(ValidationError),
    Usage,
}

impl View for GlError {
    type V = GlErrorView;

    open spec fn view(&self) -> GlErrorView {
        match self {
            GlError::Compile { file_name, stage, log } => GlErrorView::Compile {
                file_name: file_name@,
                stage: *stage,
                log: log@,
            },
            GlError::Link { log } => GlErrorView::Link { log: log@ },
            GlError::AttributeNotFound { name } => GlErrorView::AttributeNotFound { name: name@ },
            GlError::UniformNotFound { name } => GlErrorView::UniformNotFound { name: name@ },
            GlError::Validation(v) => GlErrorView::Validation(*v),
            GlError::Usage => GlErrorView::Usage,
        }
    }
}

} // verus!
