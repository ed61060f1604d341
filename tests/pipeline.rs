use glutils::error::GlError;
use glutils::program::{Linker, Program};
use glutils::shader::{Shader, ShaderType};
use glutils::text::{bytes_before_nul, diagnostic_text};

fn log_buffer(text: &str) -> Vec<u8> {
    let mut buf = vec![0u8; 512];
    buf[..text.len()].copy_from_slice(text.as_bytes());
    buf
}

#[test]
fn diagnostic_stops_at_nul_and_is_trimmed() {
    let mut buf = log_buffer("  0:1(10): error: syntax error\n");
    buf[100] = b'x';
    assert_eq!(diagnostic_text(&buf), "0:1(10): error: syntax error");
    assert_eq!(diagnostic_text(&[]), "");
    assert_eq!(diagnostic_text(b"\tfine \xff"), "fine \u{fffd}");
}

#[test]
fn failed_compile_reports_file_stage_and_log() {
    let log = log_buffer("ERROR: 0:3: 'aPos' : undeclared identifier \n");
    match Shader::new("vertex.glsl", ShaderType::Vertex, 4, 0, &log) {
        Err(GlError::Compile { file_name, stage, log }) => {
            assert_eq!(file_name, "vertex.glsl");
            assert_eq!(stage, ShaderType::Vertex);
            assert_eq!(log, "ERROR: 0:3: 'aPos' : undeclared identifier");
        }
        other => panic!("unexpected {:?}", other),
    }
}

#[test]
fn successful_compile_keeps_handle_and_stage() {
    let s = Shader::new("frag.glsl", ShaderType::Fragment, 9, 1, &[0u8; 16]).unwrap();
    assert_eq!(s.handle(), 9);
    assert_eq!(s.stage(), ShaderType::Fragment);
}

#[test]
fn failed_link_reports_log() {
    let linker = Linker::new(3)
        .attach_shader(Shader::new("v", ShaderType::Vertex, 1, 1, &[]).unwrap());
    match linker.link(0, &log_buffer("link failed: no main\n")) {
        Err(GlError::Link { log }) => assert_eq!(log, "link failed: no main"),
        other => panic!("unexpected {:?}", other),
    }
}

#[test]
fn compile_link_and_query_attribute_slots() {
    let vs = Shader::new("vs.glsl", ShaderType::Vertex, 1, 1, &[0u8; 512]).unwrap();
    let fs = Shader::new("fs.glsl", ShaderType::Fragment, 2, 1, &[0u8; 512]).unwrap();
    let linker = Linker::new(3).attach_shader(vs).attach_shader(fs);
    assert_eq!(linker.program(), 3);
    assert_eq!(linker.shader_handles(), vec![1, 2]);
    let (program, released) = linker.link(1, &[0u8; 512]).unwrap();
    assert_eq!(program, Program { gl_object_id: 3 });
    assert_eq!(released, vec![1, 2]);
    assert_eq!(program.get_attrib_loc("aPos", 0).unwrap(), 0);
    match program.get_attrib_loc("missing", -1) {
        Err(GlError::AttributeNotFound { name }) => assert_eq!(name, "missing"),
        other => panic!("unexpected {:?}", other),
    }
}

#[test]
fn uniform_lookup() {
    let program = Program { gl_object_id: 5 };
    assert_eq!(program.get_uniform_loc("ourColor", 2).unwrap(), 2);
    match program.get_uniform_loc("nothing", -1) {
        Err(GlError::UniformNotFound { name }) => assert_eq!(name, "nothing"),
        other => panic!("unexpected {:?}", other),
    }
}

#[test]
fn diagnostic_bytes_end_at_first_nul() {
    assert_eq!(bytes_before_nul(b"abc\0def\0"), b"abc".to_vec());
    assert_eq!(bytes_before_nul(b"no terminator"), b"no terminator".to_vec());
    assert_eq!(bytes_before_nul(b"\0abc"), Vec::<u8>::new());
}
