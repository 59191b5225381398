//! The checked-call layer and the small value types, on concrete values.

use babo_engine::shader::status_error;
use babo_engine::shader::ShaderError;
use babo_engine::shader::ShaderSource;
use babo_engine::shader::ShaderType;
use babo_engine::utils::gl_check;
use babo_engine::utils::gl_error_string;
use babo_engine::shader::interpret_status;
use babo_engine::shader::ShaderProgram;
use babo_engine::utils::interpret_create;
use babo_engine::window::WindowError;

#[test]
fn error_string_invalid_enum() {
    assert_eq!(gl_error_string(0x0500), "Invalid enum");
}

#[test]
fn error_string_invalid_value() {
    assert_eq!(gl_error_string(0x0501), "Invalid value");
}

#[test]
fn error_string_invalid_operation() {
    assert_eq!(gl_error_string(0x0502), "Invalid operation");
}

#[test]
fn error_string_invalid_framebuffer_operation() {
    assert_eq!(gl_error_string(0x0506), "Invalid framebuffer operation");
}

#[test]
fn error_string_out_of_memory() {
    assert_eq!(gl_error_string(0x0505), "Out of memory");
}

#[test]
fn error_string_unknown_code() {
    assert_eq!(gl_error_string(0x1234), "Unknown error");
    assert_eq!(gl_error_string(0x0503), "Unknown error");
}

#[test]
fn check_no_error_is_ok() {
    assert!(gl_check("DrawArrays", 0).is_ok());
}

#[test]
fn check_reports_method_code_and_reason() {
    let e = gl_check("BindTexture", 0x0500).unwrap_err();
    assert_eq!(e.method, "BindTexture");
    assert_eq!(e.code, 0x0500);
    assert_eq!(e.message, "Invalid enum");
}

#[test]
fn check_reason_matches_table_for_every_code() {
    for code in [0x0500u32, 0x0501, 0x0502, 0x0505, 0x0506, 0x9999] {
        let e = gl_check("Foo", code).unwrap_err();
        assert_eq!(e.code, code);
        assert_eq!(e.message, gl_error_string(code));
    }
}

#[test]
fn shader_type_gl_kind() {
    assert_eq!(ShaderType::Fragment.gl_kind(), 0x8B30);
    assert_eq!(ShaderType::Vertex.gl_kind(), 0x8B31);
}

#[test]
fn shader_source_round_trip() {
    let text = "void main() {}";
    let source = ShaderSource::new(text);
    assert_eq!(source.into_inner(), text);
}

#[test]
fn status_error_picks_the_variant() {
    match status_error(false, String::from("bad stage")) {
        ShaderError::CompileError { log } => assert_eq!(log, "bad stage"),
        other => panic!("unexpected error: {:?}", other),
    }
    match status_error(true, String::from("bad link")) {
        ShaderError::LinkError { log } => assert_eq!(log, "bad link"),
        other => panic!("unexpected error: {:?}", other),
    }
}

#[test]
fn window_error_from_string() {
    let e = WindowError::from(String::from("no device"));
    assert_eq!(e.message(), "no device");
}

#[test]
fn status_interpretation_is_an_iff() {
    assert!(interpret_status(1, false, String::new()).is_ok());
    assert!(interpret_status(-1, true, String::new()).is_ok());
    match interpret_status(0, false, String::from("bad stage")) {
        Err(ShaderError::CompileError { log }) => assert_eq!(log, "bad stage"),
        other => panic!("expected a compile error, got {:?}", other),
    }
    match interpret_status(0, true, String::from("bad link")) {
        Err(ShaderError::LinkError { log }) => assert_eq!(log, "bad link"),
        other => panic!("expected a link error, got {:?}", other),
    }
}

#[test]
fn location_interpretation_is_an_iff() {
    assert_eq!(ShaderProgram::interpret_location(5, "tint"), Ok(5));
    assert_eq!(ShaderProgram::interpret_location(0, "tint"), Ok(0));
    match ShaderProgram::interpret_location(-1, "tint") {
        Err(ShaderError::UniformNotFound { name }) => assert_eq!(name, "tint"),
        other => panic!("expected a missing uniform, got {:?}", other),
    }
}

#[test]
fn create_interpretation_is_an_iff() {
    assert_eq!(interpret_create(7, 0, "CreateShader"), Ok(7));
    let e = interpret_create(0, 0, "CreateShader").unwrap_err();
    assert_eq!(e.method, "CreateShader");
    assert_eq!(e.code, 0);
    assert_eq!(e.message, "Unknown error");
    let e = interpret_create(7, 0x0505, "GenTextures").unwrap_err();
    assert_eq!(e.method, "GenTextures");
    assert_eq!(e.code, 0x0505);
    assert_eq!(e.message, "Out of memory");
}
