use slate::webgl::{WebGLContext, WebGLVersion, WebGLError, Extension, Shader, ShaderType, Program, Buffer, BufferUsage,
    WebGLState, Texture, Framebuffer, Renderbuffer, usage_from_const};
use slate::webgl::constants::{VERTEX_SHADER, FRAGMENT_SHADER, ARRAY_BUFFER, STATIC_DRAW, DYNAMIC_DRAW, BLEND, DITHER};
use slate::wasm::{ExportManager, ExportValue, ImportResolver, ImportValue, Memory, Table, WasmConfig, WasmError,
    memory_write_range};

#[test]
fn create_context() {
    let ctx = WebGLContext::new(WebGLVersion::WebGL1);
    assert!(!ctx.is_context_lost());
    assert_eq!(ctx.version(), WebGLVersion::WebGL1);
}

#[test]
fn create_buffer() {
    let mut ctx = WebGLContext::new(WebGLVersion::WebGL1);
    let buffer_id = ctx.create_buffer();
    assert!(buffer_id > 0);
}

#[test]
fn create_shader() {
    let mut ctx = WebGLContext::new(WebGLVersion::WebGL1);
    let shader_id = ctx.create_shader(VERTEX_SHADER);
    assert!(shader_id.is_ok());
}

#[test]
fn ids_are_fresh_and_binding_checks_them() {
    let mut ctx = WebGLContext::new(WebGLVersion::WebGL2);
    let a = ctx.create_buffer();
    let b = ctx.create_buffer();
    assert_ne!(a, b);
    assert!(ctx.bind_buffer(ARRAY_BUFFER, a).is_ok());
    assert!(matches!(ctx.bind_buffer(ARRAY_BUFFER, 999), Err(WebGLError::InvalidOperation(_))));
    assert!(ctx.buffer_data(ARRAY_BUFFER, &[1, 2, 3], STATIC_DRAW).is_ok());
    assert!(matches!(ctx.buffer_data(ARRAY_BUFFER, &[1], 7), Err(WebGLError::InvalidEnum(_))));
    ctx.delete_buffer(a);
    assert!(ctx.bind_buffer(ARRAY_BUFFER, a).is_err());
    // An unknown shader type uses up an id and is refused.
    assert!(matches!(ctx.create_shader(1), Err(WebGLError::InvalidEnum(_))));
}

#[test]
fn shader_and_program_lifecycle() {
    let mut ctx = WebGLContext::new(WebGLVersion::WebGL1);
    let vs = ctx.create_shader(VERTEX_SHADER).unwrap();
    let fs = ctx.create_shader(FRAGMENT_SHADER).unwrap();
    assert!(matches!(ctx.compile_shader(vs), Err(WebGLError::InvalidOperation(_))));
    ctx.shader_source(vs, "void main() {}".to_string()).unwrap();
    let wgsl = ctx.compile_shader(vs).unwrap();
    assert!(wgsl.contains("@vertex"));
    assert_eq!(ctx.get_shader_parameter(vs, 0x8B81), Ok(1));
    assert_eq!(ctx.get_shader_parameter(vs, 0x8B88), Ok(14));
    assert_eq!(ctx.get_shader_info_log(vs), Ok("Compilation successful".to_string()));
    let p = ctx.create_program();
    assert!(matches!(ctx.link_program(p), Err(WebGLError::ProgramLinkingFailed(_))));
    ctx.attach_shader(p, vs).unwrap();
    ctx.attach_shader(p, fs).unwrap();
    assert_eq!(ctx.get_program_parameter(p, 0x8B86), Ok(2));
    ctx.link_program(p).unwrap();
    assert_eq!(ctx.get_program_parameter(p, 0x8B82), Ok(1));
    assert!(ctx.use_program(p).is_ok());
    assert!(ctx.use_program(12345).is_err());
    assert!(matches!(ctx.draw_arrays(4, 0, -1), Err(WebGLError::InvalidValue(_))));
    assert!(ctx.draw_elements(4, 3, 0x1403, 0).is_ok());
}

#[test]
fn extension_names_round_trip() {
    assert_eq!(Extension::OesTextureFloat.name(), "OES_texture_float");
    assert_eq!(Extension::from_name("OES_texture_float_linear"), Some(Extension::OesTextureFloatLinear));
    assert_eq!(Extension::from_name("WEBGL_lose_context"), Some(Extension::WebglLoseContext));
    assert_eq!(Extension::from_name("nope"), None);
    let e = Extension::WebglDrawBuffers;
    assert_eq!(Extension::from_name(e.name()), Some(e));
}

#[test]
fn state_defaults_and_capabilities() {
    let mut s = WebGLState::new();
    assert!(s.is_enabled(DITHER));
    assert!(!s.is_enabled(BLEND));
    s.enable(BLEND);
    assert!(s.is_enabled(BLEND));
    s.disable(BLEND);
    assert!(!s.is_enabled(BLEND));
    s.bind_buffer(ARRAY_BUFFER, 3);
    assert_eq!(s.get_bound_buffer(ARRAY_BUFFER), Some(3));
    assert_eq!(s.get_bound_buffer(0x1234), None);
}

#[test]
fn object_handles() {
    assert_eq!(Texture::new(4).id(), 4);
    assert_eq!(Framebuffer::new(5).id(), 5);
    assert_eq!(Renderbuffer::new(6).id(), 6);
    let mut b = Buffer::new(7);
    assert_eq!(b.usage(), BufferUsage::StaticDraw);
    b.set_data(16, DYNAMIC_DRAW).unwrap();
    assert_eq!((b.size(), b.usage()), (16, BufferUsage::DynamicDraw));
    assert!(usage_from_const(0).is_err());
    let s = Shader::new(1, FRAGMENT_SHADER).unwrap();
    assert_eq!(s.shader_type(), ShaderType::Fragment);
    assert!(Shader::new(1, 0).is_err());
    let p = Program::new(9);
    assert_eq!(p.get_parameter(0x8B83), Ok(1));
}

#[test]
fn exports_and_imports() {
    let mut ex = ExportManager::new();
    ex.register("add".to_string(), ExportValue::Function(0));
    ex.register("mem".to_string(), ExportValue::Memory(1));
    ex.register("add".to_string(), ExportValue::Function(2));
    assert_eq!(ex.get("add"), Some(&ExportValue::Function(2)));
    assert_eq!(ex.get("sub"), None);
    assert_eq!(ex.names(), vec!["add".to_string(), "mem".to_string()]);

    let mut im = ImportResolver::new();
    im.register("env".to_string(), "log".to_string(), ImportValue::Function(1));
    im.register("env".to_string(), "mem".to_string(), ImportValue::Memory(0));
    assert_eq!(im.resolve("env", "log"), Some(&ImportValue::Function(1)));
    assert_eq!(im.resolve("env", "nope"), None);
    assert_eq!(im.resolve("other", "log"), None);
}

#[test]
fn memories_tables_and_config() {
    let m = Memory::new(1, 2, Some(10));
    assert_eq!((m.id(), m.initial(), m.maximum()), (1, 2, Some(10)));
    assert_eq!(Table::new(3, 0, None).id(), 3);
    let c = WasmConfig::default();
    assert_eq!(c.max_memory_pages, 65536);
    assert!(c.simd && c.jit);
    assert_eq!(memory_write_range(2, 3, 5), Ok((2, 5)));
    assert!(matches!(memory_write_range(3, 3, 5), Err(WasmError::OutOfBounds(_))));
    assert!(matches!(memory_write_range(usize::MAX, 2, 5), Err(WasmError::OutOfBounds(_))));
}

#[test]
fn compile_simple_module() {
    let wat = r#"
        (module
            (func (export "add") (param i32 i32) (result i32)
                local.get 0
                local.get 1
                i32.add
            )
        )
    "#;
    let config = WasmConfig::default();
    let module = slate::wasm_module::Module::from_wat(1, wat, &config);
    assert!(module.is_ok());
}

#[test]
fn module_exports() {
    let wat = r#"
        (module
            (func (export "test") (result i32)
                i32.const 42
            )
        )
    "#;
    let config = WasmConfig::default();
    let module = slate::wasm_module::Module::from_wat(1, wat, &config).unwrap();
    let exports = module.exports();
    assert_eq!(exports.len(), 1);
    assert_eq!(exports[0].0, "test");
    assert_eq!(module.id(), 1);
    assert!(module.imports().is_empty());
}

#[test]
fn malformed_module_text_fails_to_compile() {
    let config = WasmConfig::default();
    let module = slate::wasm_module::Module::from_wat(2, "(module (func", &config);
    assert!(matches!(&module, Err(WasmError::CompilationFailed(m)) if !m.is_empty()));
    let bytes = slate::wasm_module::Module::from_bytes(3, &[0, 1, 2], &config);
    assert!(matches!(bytes, Err(WasmError::CompilationFailed(_))));
}

