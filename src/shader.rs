use vstd::prelude::*;

use crate::error::{GlError, GlErrorView};
use crate::text::{diagnostic, diagnostic_text};

verus! {

/// A stage of the graphics pipeline that compiles on its own.
#[derive(Clone, Copy, Debug, PartialEq, Eq, Structural)]
pub enum ShaderType {
    Vertex,
    Fragment,
}

/// What a [`Shader`] holds.
pub struct ShaderView {
    pub handle: u32,
    pub stage: ShaderType,
}

/// A compiled shader stage: the backend's shader object and its stage. It is
/// owned until it is attached to a [`crate::program::Linker`].
#[derive(Debug)]
pub struct Shader {
    handle: u32,
    stage: ShaderType,
}

impl View for Shader {
    type V = ShaderView;

    closed spec fn view(&self) -> ShaderView {
        ShaderView { handle: self.handle, stage: self.stage }
    }
}

impl Shader {
    /// Settles the compilation of the source named `file_name` for `stage`:
    /// `handle` is the backend's shader object, `status` the compile status it
    /// reported (zero for failure) and `log` its diagnostic buffer.
    pub fn new(file_name: &str, stage: ShaderType, handle: u32, status: i32, log: &[u8]) -> (r:
        Result<Shader, GlError>)
        ensures
            r is Ok <==> status != 0,
            r is Ok ==> r->Ok_0@ == (ShaderView { handle, stage }),
            r is Err ==> r->Err_0@ == (GlErrorView::Compile {
                file_name: file_name@,
                stage,
                log: diagnostic(log@),
            }),
    {
        if status == 0 {
            let text = diagnostic_text(log);
            Err(GlError::Compile { file_name: file_name.to_owned(), stage, log: text })
        } else {
            Ok(Shader { handle, stage })
        }
    }

    pub fn handle(&self) -> (r: u32)
        ensures
            r == self@.handle,
    {
        self.handle
    }

    pub fn stage(&self) -> (r: ShaderType)
        ensures
            r == self@.stage,
    {
        self.stage
    }
}

} // verus!
