use vstd::prelude::*;

use crate::error::{GlError, GlErrorView};
use crate::shader::{Shader, ShaderView};
use crate::text::{diagnostic, diagnostic_text};

verus! {

/// A linked, executable pipeline: a lightweight reference to the backend's
/// program object.
#[derive(Clone, Copy, Debug, PartialEq, Eq, Structural)]
pub struct Program {
    pub gl_object_id: u32,
}

impl Program {
    /// Settles the lookup of attribute `attrib`: `location` is the slot the
    /// backend reported for it in this program, negative when the program has
    /// no such active attribute.
    pub fn get_attrib_loc(&self, attrib: &str, location: i32) -> (r: Result<u32, GlError>)
        ensures
            location >= 0 ==> r == Ok::<u32, GlError>(location as u32),
            location < 0 ==> r is Err && r->Err_0@ == (GlErrorView::AttributeNotFound { name: attrib@ }),
    {
        if location < 0 {
            Err(GlError::AttributeNotFound { name: attrib.to_owned() })
        } else {
            Ok(location as u32)
        }
    }

    /// Settles the lookup of uniform `uniform`: `location` is the slot the
    /// backend reported for it in this program, negative when the program has
    /// no such active uniform.
    pub fn get_uniform_loc(&self, uniform: &str, location: i32) -> (r: Result<i32, GlError>)
        ensures
            location >= 0 ==> r == Ok::<i32, GlError>(location),
            location < 0 ==> r is Err && r->Err_0@ == (GlErrorView::UniformNotFound { name: uniform@ }),
    {
        if location < 0 {
            Err(GlError::UniformNotFound { name: uniform.to_owned() })
        } else {
            Ok(location)
        }
    }
}

/// What a [`Linker`] holds.
pub struct LinkerView {
    pub shaders: Seq<ShaderView>,
    pub program: u32,
}

/// Collects compiled shaders for one backend program object until it is linked.
#[derive(Debug)]
pub struct Linker {
    shaders: Vec<Shader>,
    program: u32,
}

impl View for Linker {
    type V = LinkerView;

    closed spec fn view(&self) -> LinkerView {
        LinkerView { shaders: self.shaders@.map_values(|s: Shader| s@), program: self.program }
    }
}

impl Linker {
    /// A linker for the freshly allocated program object `program`.
    pub fn new(program: u32) -> (r: Self)
        ensures
            r@.shaders == Seq::<ShaderView>::empty(),
            r@.program == program,
    {
        Linker { shaders: Vec::new(), program }
    }

    /// Takes ownership of `shader` for the link.
    pub fn attach_shader(self, shader: Shader) -> (r: Self)
        ensures
            r@.shaders == self@.shaders.push(shader@),
            r@.program == self@.program,
    {
        let mut linker = self;
        let ghost before = linker.shaders@;
        linker.shaders.push(shader);
        assert(linker.shaders@.map_values(|s: Shader| s@) =~= before.map_values(|s: Shader| s@).push(
            shader@,
        ));
        linker
    }

    /// The program object being linked.
    pub fn program(&self) -> (r: u32)
        ensures
            r == self@.program,
    {
        self.program
    }

    /// The shader objects attached so far, in order of attachment.
    pub fn shader_handles(&self) -> (r: Vec<u32>)
        ensures
            r@ == self@.shaders.map_values(|s: ShaderView| s.handle),
    {
        let mut out: Vec<u32> = Vec::new();
        let mut i: usize = 0;
        while i < self.shaders.len()
            invariant
                i <= self.shaders@.len(),
                out@ == self@.shaders.subrange(0, i as int).map_values(|s: ShaderView| s.handle),
            decreases self.shaders.len() - i,
        {
            out.push(self.shaders[i].handle());
            i += 1;
            assert(out@ =~= self@.shaders.subrange(0, i as int).map_values(
                |s: ShaderView| s.handle,
            ));
        }
        assert(self@.shaders.subrange(0, i as int) =~= self@.shaders);
        out
    }

    /// Settles the link: `status` is the link status the backend reported for
    /// the program object (zero for failure) and `log` its diagnostic buffer.
    /// On success it returns the pipeline and the shader objects, in order of
    /// attachment, that the link no longer needs and that are to be released.
    pub fn link(self, status: i32, log: &[u8]) -> (r: Result<(Program, Vec<u32>), GlError>)
        ensures
            r is Ok <==> status != 0,
            r is Ok ==> r->Ok_0.0 == (Program { gl_object_id: self@.program }) && r->Ok_0.1@
                == self@.shaders.map_values(|s: ShaderView| s.handle),
            r is Err ==> r->Err_0@ == (GlErrorView::Link { log: diagnostic(log@) }),
    {
        if status == 0 {
            let text = diagnostic_text(log);
            Err(GlError::Link { log: text })
        } else {
            let released = self.shader_handles();
            Ok((Program { gl_object_id: self.program }, released))
        }
    }
}

} // verus!
