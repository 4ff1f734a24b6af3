//! WebGL object bookkeeping: the context's registry of buffers, shaders, programs,
//! textures and framebuffers, its pipeline state, and the extension names.
pub mod constants;

use vstd::prelude::*;
use std::collections::HashMap;
use crate::strs::{str_eq, to_owned_string, byte_length, byte_len};
use self::constants::{
    STREAM_DRAW, STATIC_DRAW, DYNAMIC_DRAW, VERTEX_SHADER, FRAGMENT_SHADER, BLEND, CULL_FACE, DEPTH_TEST,
    DITHER, SCISSOR_TEST, STENCIL_TEST, ONE, ZERO, ARRAY_BUFFER, ELEMENT_ARRAY_BUFFER,
};

verus! {

broadcast use vstd::std_specs::hash::group_hash_axioms;

/// WebGL errors.
#[derive(Debug, Clone, PartialEq, Eq)]
pub enum WebGLError {
    InvalidEnum(String),
    InvalidValue(String),
    InvalidOperation(String),
    OutOfMemory,
    InvalidFramebufferOperation(String),
    ContextLost,
    ShaderCompilationFailed(String),
    ProgramLinkingFailed(String),
}

/// WebGL version.
#[derive(Debug, Clone, Copy, PartialEq, Eq, Structural)]
pub enum WebGLVersion {
    WebGL1,
    WebGL2,
}

/// Buffer binding target.
#[derive(Debug, Clone, Copy, PartialEq, Eq, Structural)]
pub enum BufferTarget {
    ArrayBuffer,
    ElementArrayBuffer,
}

/// Buffer usage hint.
#[derive(Debug, Clone, Copy, PartialEq, Eq, Structural)]
pub enum BufferUsage {
    StreamDraw,
    StaticDraw,
    DynamicDraw,
}

/// Shader stage.
#[derive(Debug, Clone, Copy, PartialEq, Eq, Structural)]
pub enum ShaderType {
    Vertex,
    Fragment,
}

/// Texture target.
#[derive(Debug, Clone, Copy, PartialEq, Eq, Structural)]
pub enum TextureTarget {
    Texture2D,
    TextureCubeMap,
}

/// Texture format.
#[derive(Debug, Clone, Copy, PartialEq, Eq, Structural)]
pub enum TextureFormat {
    RGBA,
    RGB,
    Alpha,
    Luminance,
    LuminanceAlpha,
}

/// A WebGL texture.
pub struct Texture {
    id: u32,
}

impl Texture {
    /// The texture's ID.
    pub closed spec fn spec_id(&self) -> u32 {
        self.id
    }

    /// Create a texture handle.
    pub fn new(id: u32) -> (r: Self)
        ensures
            r.spec_id() == id,
    {
        Texture { id }
    }

    /// The texture's ID.
    pub fn id(&self) -> (r: u32)
        ensures
            r == self.spec_id(),
    {
        self.id
    }
}

/// A WebGL framebuffer.
pub struct Framebuffer {
    id: u32,
}

impl Framebuffer {
    /// The framebuffer's ID.
    pub closed spec fn spec_id(&self) -> u32 {
        self.id
    }

    /// Create a framebuffer handle.
    pub fn new(id: u32) -> (r: Self)
        ensures
            r.spec_id() == id,
    {
        Framebuffer { id }
    }

    /// The framebuffer's ID.
    pub fn id(&self) -> (r: u32)
        ensures
            r == self.spec_id(),
    {
        self.id
    }
}

/// A WebGL renderbuffer.
pub struct Renderbuffer {
    id: u32,
}

impl Renderbuffer {
    /// The renderbuffer's ID.
    pub closed spec fn spec_id(&self) -> u32 {
        self.id
    }

    /// Create a renderbuffer handle.
    pub fn new(id: u32) -> (r: Self)
        ensures
            r.spec_id() == id,
    {
        Renderbuffer { id }
    }

    /// The renderbuffer's ID.
    pub fn id(&self) -> (r: u32)
        ensures
            r == self.spec_id(),
    {
        self.id
    }
}

/// The usage a WebGL usage constant names.
pub open spec fn spec_usage_of(c: u32) -> Option<BufferUsage> {
    if c == STREAM_DRAW {
        Some(BufferUsage::StreamDraw)
    } else if c == STATIC_DRAW {
        Some(BufferUsage::StaticDraw)
    } else if c == DYNAMIC_DRAW {
        Some(BufferUsage::DynamicDraw)
    } else {
        None
    }
}

/// The shader stage a WebGL shader type constant names.
pub open spec fn spec_shader_type_of(c: u32) -> Option<ShaderType> {
    if c == VERTEX_SHADER {
        Some(ShaderType::Vertex)
    } else if c == FRAGMENT_SHADER {
        Some(ShaderType::Fragment)
    } else {
        None
    }
}

/// The usage a WebGL usage constant names; `InvalidEnum` for any other value.
pub fn usage_from_const(c: u32) -> (r: Result<BufferUsage, WebGLError>)
    ensures
        match spec_usage_of(c) {
            Some(u) => r == Ok::<BufferUsage, WebGLError>(u),
            None => r matches Err(WebGLError::InvalidEnum(_)),
        },
{
    if c == STREAM_DRAW {
        Ok(BufferUsage::StreamDraw)
    } else if c == STATIC_DRAW {
        Ok(BufferUsage::StaticDraw)
    } else if c == DYNAMIC_DRAW {
        Ok(BufferUsage::DynamicDraw)
    } else {
        Err(WebGLError::InvalidEnum(to_owned_string("Invalid buffer usage")))
    }
}

/// A WebGL buffer: its size and usage hint. The GPU memory behind it is kept by the
/// caller that drives the device.
#[derive(Debug, Clone, Copy, PartialEq, Eq, Structural)]
pub struct Buffer {
    id: u32,
    size: u64,
    usage: BufferUsage,
}

impl Buffer {
    /// The buffer's ID.
    pub closed spec fn spec_id(&self) -> u32 {
        self.id
    }

    /// The size of the data last set, in bytes.
    pub closed spec fn spec_size(&self) -> u64 {
        self.size
    }

    /// The usage hint last set.
    pub closed spec fn spec_usage(&self) -> BufferUsage {
        self.usage
    }

    /// Create an empty buffer, with the static-draw hint.
    pub fn new(id: u32) -> (r: Self)
        ensures
            r.spec_id() == id,
            r.spec_size() == 0,
            r.spec_usage() == BufferUsage::StaticDraw,
    {
        Buffer { id, size: 0, usage: BufferUsage::StaticDraw }
    }

    /// The buffer's ID.
    pub fn id(&self) -> (r: u32)
        ensures
            r == self.spec_id(),
    {
        self.id
    }

    /// Record new data of `len` bytes with the usage that `usage_const` names. An
    /// unknown usage is refused with `InvalidEnum` and changes nothing.
    pub fn set_data(&mut self, len: u64, usage_const: u32) -> (r: Result<(), WebGLError>)
        ensures
            final(self).spec_id() == old(self).spec_id(),
            match spec_usage_of(usage_const) {
                Some(u) => r is Ok && final(self).spec_size() == len && final(self).spec_usage() == u,
                None => r matches Err(WebGLError::InvalidEnum(_)) && *final(self) == *old(self),
            },
    {
        let usage = match usage_from_const(usage_const) {
            Ok(u) => u,
            Err(e) => return Err(e),
        };
        self.usage = usage;
        self.size = len;
        Ok(())
    }

    /// The size of the data last set.
    pub fn size(&self) -> (r: u64)
        ensures
            r == self.spec_size(),
    {
        self.size
    }

    /// The usage hint last set.
    pub fn usage(&self) -> (r: BufferUsage)
        ensures
            r == self.spec_usage(),
    {
        self.usage
    }
}

/// The WGSL source that a shader of the given stage compiles to.
pub open spec fn spec_wgsl_source(t: ShaderType) -> Seq<char> {
    match t {
        ShaderType::Vertex => "\n                @vertex\n                fn main(@location(0) position: vec3<f32>) -> @builtin(position) vec4<f32> {\n                    return vec4<f32>(position, 1.0);\n                }\n            "@,
        ShaderType::Fragment => "\n                @fragment\n                fn main() -> @location(0) vec4<f32> {\n                    return vec4<f32>(1.0, 1.0, 1.0, 1.0);\n                }\n            "@,
    }
}

/// A WebGL shader: its stage, source, compile status and info log. The compiled
/// GPU module is kept by the caller that drives the device.
pub struct Shader {
    id: u32,
    shader_type: ShaderType,
    source: Option<String>,
    compile_status: bool,
    info_log: String,
}

impl Shader {
    /// The shader's ID.
    pub closed spec fn spec_id(&self) -> u32 {
        self.id
    }

    /// The shader's stage.
    pub closed spec fn spec_type(&self) -> ShaderType {
        self.shader_type
    }

    /// The source last set, if any.
    pub closed spec fn spec_source(&self) -> Option<Seq<char>> {
        match self.source {
            Some(s) => Some(s@),
            None => None,
        }
    }

    /// Whether the shader compiled since its source was last set.
    pub closed spec fn spec_compiled(&self) -> bool {
        self.compile_status
    }

    /// The info log.
    pub closed spec fn spec_info_log(&self) -> Seq<char> {
        self.info_log@
    }

    /// Create a shader of the stage that `shader_type_const` names; `InvalidEnum` for
    /// any other value.
    pub fn new(id: u32, shader_type_const: u32) -> (r: Result<Self, WebGLError>)
        ensures
            match spec_shader_type_of(shader_type_const) {
                Some(t) => r matches Ok(s) && s.spec_id() == id && s.spec_type() == t
                    && s.spec_source() is None && !s.spec_compiled() && s.spec_info_log() == Seq::<char>::empty(),
                None => r matches Err(WebGLError::InvalidEnum(_)),
            },
    {
        let shader_type = if shader_type_const == VERTEX_SHADER {
            ShaderType::Vertex
        } else if shader_type_const == FRAGMENT_SHADER {
            ShaderType::Fragment
        } else {
            return Err(WebGLError::InvalidEnum(to_owned_string("Invalid shader type")));
        };
        Ok(Shader { id, shader_type, source: None, compile_status: false, info_log: String::new() })
    }

    /// The shader's ID.
    pub fn id(&self) -> (r: u32)
        ensures
            r == self.spec_id(),
    {
        self.id
    }

    /// The shader's stage.
    pub fn shader_type(&self) -> (r: ShaderType)
        ensures
            r == self.spec_type(),
    {
        self.shader_type
    }

    /// Set the source; the shader counts as not compiled until it is compiled again.
    pub fn set_source(&mut self, source: String)
        ensures
            final(self).spec_id() == old(self).spec_id(),
            final(self).spec_type() == old(self).spec_type(),
            final(self).spec_source() == Some(source@),
            !final(self).spec_compiled(),
            final(self).spec_info_log() == old(self).spec_info_log(),
    {
        self.source = Some(source);
        self.compile_status = false;
    }

    /// Compile: with no source set, `InvalidOperation` and nothing changes; else the
    /// WGSL source for the shader's stage, and the shader counts as compiled.
    pub fn compile(&mut self) -> (r: Result<String, WebGLError>)
        ensures
            final(self).spec_id() == old(self).spec_id(),
            final(self).spec_type() == old(self).spec_type(),
            final(self).spec_source() == old(self).spec_source(),
            old(self).spec_source() is None ==> (r matches Err(WebGLError::InvalidOperation(_))
                && final(self).spec_compiled() == old(self).spec_compiled()
                && final(self).spec_info_log() == old(self).spec_info_log()),
            old(self).spec_source() is Some ==> (r matches Ok(w) && w@ == spec_wgsl_source(old(self).spec_type())
                && final(self).spec_compiled() && final(self).spec_info_log() == "Compilation successful"@),
    {
        if self.source.is_none() {
            return Err(WebGLError::InvalidOperation(to_owned_string("No source set")));
        }
        let wgsl = self.glsl_to_wgsl();
        self.compile_status = true;
        self.info_log = to_owned_string("Compilation successful");
        Ok(wgsl)
    }

    fn glsl_to_wgsl(&self) -> (r: String)
        ensures
            r@ == spec_wgsl_source(self.spec_type()),
    {
        match self.shader_type {
            ShaderType::Vertex => to_owned_string("\n                @vertex\n                fn main(@location(0) position: vec3<f32>) -> @builtin(position) vec4<f32> {\n                    return vec4<f32>(position, 1.0);\n                }\n            "),
            ShaderType::Fragment => to_owned_string("\n                @fragment\n                fn main() -> @location(0) vec4<f32> {\n                    return vec4<f32>(1.0, 1.0, 1.0, 1.0);\n                }\n            "),
        }
    }

    /// A shader parameter: compile status (1 or 0), stage constant, or the byte
    /// length of the source (0 where none is set); `InvalidEnum` for other names.
    pub fn get_parameter(&self, pname: u32) -> (r: Result<i32, WebGLError>)
        ensures
            pname == 0x8B81 ==> r == Ok::<i32, WebGLError>(if self.spec_compiled() { 1i32 } else { 0i32 }),
            pname == 0x8B84 ==> r == Ok::<i32, WebGLError>(match self.spec_type() {
                ShaderType::Vertex => VERTEX_SHADER as i32,
                ShaderType::Fragment => FRAGMENT_SHADER as i32,
            }),
            pname == 0x8B88 ==> r == Ok::<i32, WebGLError>(match self.spec_source() {
                Some(s) => byte_len(s) as i32,
                None => 0i32,
            }),
            pname != 0x8B81 && pname != 0x8B84 && pname != 0x8B88 ==> (r matches Err(WebGLError::InvalidEnum(_))),
    {
        if pname == 0x8B81 {
            Ok(if self.compile_status { 1 } else { 0 })
        } else if pname == 0x8B84 {
            Ok(match self.shader_type {
                ShaderType::Vertex => VERTEX_SHADER as i32,
                ShaderType::Fragment => FRAGMENT_SHADER as i32,
            })
        } else if pname == 0x8B88 {
            match &self.source {
                Some(s) => Ok(byte_length(s.as_str()) as i32),
                None => Ok(0),
            }
        } else {
            Err(WebGLError::InvalidEnum(to_owned_string("Invalid parameter name")))
        }
    }

    /// The info log.
    pub fn get_info_log(&self) -> (r: String)
        ensures
            r@ == self.spec_info_log(),
    {
        to_owned_string(self.info_log.as_str())
    }
}

/// A WebGL program: the shaders attached to it, its link status and info log.
pub struct Program {
    id: u32,
    shaders: Vec<u32>,
    link_status: bool,
    info_log: String,
}

impl Program {
    /// The program's ID.
    pub closed spec fn spec_id(&self) -> u32 {
        self.id
    }

    /// The IDs of the attached shaders, in order of attachment.
    pub closed spec fn spec_shaders(&self) -> Seq<u32> {
        self.shaders@
    }

    /// Whether the program linked.
    pub closed spec fn spec_linked(&self) -> bool {
        self.link_status
    }

    /// The info log.
    pub closed spec fn spec_info_log(&self) -> Seq<char> {
        self.info_log@
    }

    /// Create a program with no shaders.
    pub fn new(id: u32) -> (r: Self)
        ensures
            r.spec_id() == id,
            r.spec_shaders() == Seq::<u32>::empty(),
            !r.spec_linked(),
            r.spec_info_log() == Seq::<char>::empty(),
    {
        Program { id, shaders: Vec::new(), link_status: false, info_log: String::new() }
    }

    /// The program's ID.
    pub fn id(&self) -> (r: u32)
        ensures
            r == self.spec_id(),
    {
        self.id
    }

    /// Attach a shader.
    pub fn attach_shader(&mut self, shader_id: u32)
        ensures
            final(self).spec_id() == old(self).spec_id(),
            final(self).spec_shaders() == old(self).spec_shaders().push(shader_id),
            final(self).spec_linked() == old(self).spec_linked(),
            final(self).spec_info_log() == old(self).spec_info_log(),
    {
        self.shaders.push(shader_id);
    }

    /// Link: with fewer than two shaders attached, `ProgramLinkingFailed` and nothing
    /// changes; else the program counts as linked.
    pub fn link(&mut self) -> (r: Result<(), WebGLError>)
        ensures
            final(self).spec_id() == old(self).spec_id(),
            final(self).spec_shaders() == old(self).spec_shaders(),
            old(self).spec_shaders().len() < 2 ==> (r matches Err(WebGLError::ProgramLinkingFailed(_))
                && final(self).spec_linked() == old(self).spec_linked()
                && final(self).spec_info_log() == old(self).spec_info_log()),
            old(self).spec_shaders().len() >= 2 ==> r is Ok && final(self).spec_linked()
                && final(self).spec_info_log() == "Link successful"@,
    {
        if self.shaders.len() < 2 {
            return Err(WebGLError::ProgramLinkingFailed(
                to_owned_string("Program must have both vertex and fragment shaders"),
            ));
        }
        self.link_status = true;
        self.info_log = to_owned_string("Link successful");
        Ok(())
    }

    /// A program parameter: link status (1 or 0), validate status (always 1), or the
    /// number of attached shaders; `InvalidEnum` for other names.
    pub fn get_parameter(&self, pname: u32) -> (r: Result<i32, WebGLError>)
        ensures
            pname == 0x8B82 ==> r == Ok::<i32, WebGLError>(if self.spec_linked() { 1i32 } else { 0i32 }),
            pname == 0x8B83 ==> r == Ok::<i32, WebGLError>(1i32),
            pname == 0x8B86 ==> r == Ok::<i32, WebGLError>(self.spec_shaders().len() as i32),
            pname != 0x8B82 && pname != 0x8B83 && pname != 0x8B86 ==> (r matches Err(WebGLError::InvalidEnum(_))),
    {
        if pname == 0x8B82 {
            Ok(if self.link_status { 1 } else { 0 })
        } else if pname == 0x8B83 {
            Ok(1)
        } else if pname == 0x8B86 {
            Ok(self.shaders.len() as i32)
        } else {
            Err(WebGLError::InvalidEnum(to_owned_string("Invalid parameter name")))
        }
    }

    /// The info log.
    pub fn get_info_log(&self) -> (r: String)
        ensures
            r@ == self.spec_info_log(),
    {
        to_owned_string(self.info_log.as_str())
    }
}


/// WebGL extensions.
#[derive(Debug, Clone, Copy, PartialEq, Eq, Hash, Structural)]
pub enum Extension {
    AngleInstancedArrays,
    ExtBlendMinmax,
    ExtColorBufferHalfFloat,
    ExtDisjointTimerQuery,
    ExtFragDepth,
    ExtShaderTextureLod,
    ExtTextureFilterAnisotropic,
    OesElementIndexUint,
    OesStandardDerivatives,
    OesTextureFloat,
    OesTextureFloatLinear,
    OesTextureHalfFloat,
    OesTextureHalfFloatLinear,
    OesVertexArrayObject,
    WebglColorBufferFloat,
    WebglCompressedTextureS3tc,
    WebglDebugRendererInfo,
    WebglDebugShaders,
    WebglDepthTexture,
    WebglDrawBuffers,
    WebglLoseContext,
}

/// The name of an extension.
pub open spec fn spec_extension_name(e: Extension) -> Seq<char> {
    match e {
        Extension::AngleInstancedArrays => "ANGLE_instanced_arrays"@,
        Extension::ExtBlendMinmax => "EXT_blend_minmax"@,
        Extension::ExtColorBufferHalfFloat => "EXT_color_buffer_half_float"@,
        Extension::ExtDisjointTimerQuery => "EXT_disjoint_timer_query"@,
        Extension::ExtFragDepth => "EXT_frag_depth"@,
        Extension::ExtShaderTextureLod => "EXT_shader_texture_lod"@,
        Extension::ExtTextureFilterAnisotropic => "EXT_texture_filter_anisotropic"@,
        Extension::OesElementIndexUint => "OES_element_index_uint"@,
        Extension::OesStandardDerivatives => "OES_standard_derivatives"@,
        Extension::OesTextureFloat => "OES_texture_float"@,
        Extension::OesTextureFloatLinear => "OES_texture_float_linear"@,
        Extension::OesTextureHalfFloat => "OES_texture_half_float"@,
        Extension::OesTextureHalfFloatLinear => "OES_texture_half_float_linear"@,
        Extension::OesVertexArrayObject => "OES_vertex_array_object"@,
        Extension::WebglColorBufferFloat => "WEBGL_color_buffer_float"@,
        Extension::WebglCompressedTextureS3tc => "WEBGL_compressed_texture_s3tc"@,
        Extension::WebglDebugRendererInfo => "WEBGL_debug_renderer_info"@,
        Extension::WebglDebugShaders => "WEBGL_debug_shaders"@,
        Extension::WebglDepthTexture => "WEBGL_depth_texture"@,
        Extension::WebglDrawBuffers => "WEBGL_draw_buffers"@,
        Extension::WebglLoseContext => "WEBGL_lose_context"@,
    }
}

/// The extension a name stands for, if any.
pub open spec fn spec_extension_from_name(s: Seq<char>) -> Option<Extension> {
    if s == "ANGLE_instanced_arrays"@ {
        Some(Extension::AngleInstancedArrays)
    } else if s == "EXT_blend_minmax"@ {
        Some(Extension::ExtBlendMinmax)
    } else if s == "EXT_color_buffer_half_float"@ {
        Some(Extension::ExtColorBufferHalfFloat)
    } else if s == "EXT_disjoint_timer_query"@ {
        Some(Extension::ExtDisjointTimerQuery)
    } else if s == "EXT_frag_depth"@ {
        Some(Extension::ExtFragDepth)
    } else if s == "EXT_shader_texture_lod"@ {
        Some(Extension::ExtShaderTextureLod)
    } else if s == "EXT_texture_filter_anisotropic"@ {
        Some(Extension::ExtTextureFilterAnisotropic)
    } else if s == "OES_element_index_uint"@ {
        Some(Extension::OesElementIndexUint)
    } else if s == "OES_standard_derivatives"@ {
        Some(Extension::OesStandardDerivatives)
    } else if s == "OES_texture_float"@ {
        Some(Extension::OesTextureFloat)
    } else if s == "OES_texture_float_linear"@ {
        Some(Extension::OesTextureFloatLinear)
    } else if s == "OES_texture_half_float"@ {
        Some(Extension::OesTextureHalfFloat)
    } else if s == "OES_texture_half_float_linear"@ {
        Some(Extension::OesTextureHalfFloatLinear)
    } else if s == "OES_vertex_array_object"@ {
        Some(Extension::OesVertexArrayObject)
    } else if s == "WEBGL_color_buffer_float"@ {
        Some(Extension::WebglColorBufferFloat)
    } else if s == "WEBGL_compressed_texture_s3tc"@ {
        Some(Extension::WebglCompressedTextureS3tc)
    } else if s == "WEBGL_debug_renderer_info"@ {
        Some(Extension::WebglDebugRendererInfo)
    } else if s == "WEBGL_debug_shaders"@ {
        Some(Extension::WebglDebugShaders)
    } else if s == "WEBGL_depth_texture"@ {
        Some(Extension::WebglDepthTexture)
    } else if s == "WEBGL_draw_buffers"@ {
        Some(Extension::WebglDrawBuffers)
    } else if s == "WEBGL_lose_context"@ {
        Some(Extension::WebglLoseContext)
    } else {
        None
    }
}

impl Extension {
    /// The extension's name.
    pub fn name(&self) -> (r: &'static str)
        ensures
            r@ == spec_extension_name(*self),
    {
        match self {
            Extension::AngleInstancedArrays => "ANGLE_instanced_arrays",
            Extension::ExtBlendMinmax => "EXT_blend_minmax",
            Extension::ExtColorBufferHalfFloat => "EXT_color_buffer_half_float",
            Extension::ExtDisjointTimerQuery => "EXT_disjoint_timer_query",
            Extension::ExtFragDepth => "EXT_frag_depth",
            Extension::ExtShaderTextureLod => "EXT_shader_texture_lod",
            Extension::ExtTextureFilterAnisotropic => "EXT_texture_filter_anisotropic",
            Extension::OesElementIndexUint => "OES_element_index_uint",
            Extension::OesStandardDerivatives => "OES_standard_derivatives",
            Extension::OesTextureFloat => "OES_texture_float",
            Extension::OesTextureFloatLinear => "OES_texture_float_linear",
            Extension::OesTextureHalfFloat => "OES_texture_half_float",
            Extension::OesTextureHalfFloatLinear => "OES_texture_half_float_linear",
            Extension::OesVertexArrayObject => "OES_vertex_array_object",
            Extension::WebglColorBufferFloat => "WEBGL_color_buffer_float",
            Extension::WebglCompressedTextureS3tc => "WEBGL_compressed_texture_s3tc",
            Extension::WebglDebugRendererInfo => "WEBGL_debug_renderer_info",
            Extension::WebglDebugShaders => "WEBGL_debug_shaders",
            Extension::WebglDepthTexture => "WEBGL_depth_texture",
            Extension::WebglDrawBuffers => "WEBGL_draw_buffers",
            Extension::WebglLoseContext => "WEBGL_lose_context",
        }
    }

    /// The extension with the given name.
    pub fn from_name(name: &str) -> (r: Option<Self>)
        ensures
            r == spec_extension_from_name(name@),
    {
        if str_eq(name, "ANGLE_instanced_arrays") {
            Some(Extension::AngleInstancedArrays)
        } else if str_eq(name, "EXT_blend_minmax") {
            Some(Extension::ExtBlendMinmax)
        } else if str_eq(name, "EXT_color_buffer_half_float") {
            Some(Extension::ExtColorBufferHalfFloat)
        } else if str_eq(name, "EXT_disjoint_timer_query") {
            Some(Extension::ExtDisjointTimerQuery)
        } else if str_eq(name, "EXT_frag_depth") {
            Some(Extension::ExtFragDepth)
        } else if str_eq(name, "EXT_shader_texture_lod") {
            Some(Extension::ExtShaderTextureLod)
        } else if str_eq(name, "EXT_texture_filter_anisotropic") {
            Some(Extension::ExtTextureFilterAnisotropic)
        } else if str_eq(name, "OES_element_index_uint") {
            Some(Extension::OesElementIndexUint)
        } else if str_eq(name, "OES_standard_derivatives") {
            Some(Extension::OesStandardDerivatives)
        } else if str_eq(name, "OES_texture_float") {
            Some(Extension::OesTextureFloat)
        } else if str_eq(name, "OES_texture_float_linear") {
            Some(Extension::OesTextureFloatLinear)
        } else if str_eq(name, "OES_texture_half_float") {
            Some(Extension::OesTextureHalfFloat)
        } else if str_eq(name, "OES_texture_half_float_linear") {
            Some(Extension::OesTextureHalfFloatLinear)
        } else if str_eq(name, "OES_vertex_array_object") {
            Some(Extension::OesVertexArrayObject)
        } else if str_eq(name, "WEBGL_color_buffer_float") {
            Some(Extension::WebglColorBufferFloat)
        } else if str_eq(name, "WEBGL_compressed_texture_s3tc") {
            Some(Extension::WebglCompressedTextureS3tc)
        } else if str_eq(name, "WEBGL_debug_renderer_info") {
            Some(Extension::WebglDebugRendererInfo)
        } else if str_eq(name, "WEBGL_debug_shaders") {
            Some(Extension::WebglDebugShaders)
        } else if str_eq(name, "WEBGL_depth_texture") {
            Some(Extension::WebglDepthTexture)
        } else if str_eq(name, "WEBGL_draw_buffers") {
            Some(Extension::WebglDrawBuffers)
        } else if str_eq(name, "WEBGL_lose_context") {
            Some(Extension::WebglLoseContext)
        } else {
            None
        }
    }
}

/// Naming an extension and reading the name back gives the same extension.
pub proof fn law_extension_name_roundtrip(e: Extension)
    ensures
        spec_extension_from_name(spec_extension_name(e)) == Some(e),
{
    reveal_strlit("ANGLE_instanced_arrays");
    reveal_strlit("EXT_blend_minmax");
    reveal_strlit("EXT_color_buffer_half_float");
    reveal_strlit("EXT_disjoint_timer_query");
    reveal_strlit("EXT_frag_depth");
    reveal_strlit("EXT_shader_texture_lod");
    reveal_strlit("EXT_texture_filter_anisotropic");
    reveal_strlit("OES_element_index_uint");
    reveal_strlit("OES_standard_derivatives");
    reveal_strlit("OES_texture_float");
    reveal_strlit("OES_texture_float_linear");
    reveal_strlit("OES_texture_half_float");
    reveal_strlit("OES_texture_half_float_linear");
    reveal_strlit("OES_vertex_array_object");
    reveal_strlit("WEBGL_color_buffer_float");
    reveal_strlit("WEBGL_compressed_texture_s3tc");
    reveal_strlit("WEBGL_debug_renderer_info");
    reveal_strlit("WEBGL_debug_shaders");
    reveal_strlit("WEBGL_depth_texture");
    reveal_strlit("WEBGL_draw_buffers");
    reveal_strlit("WEBGL_lose_context");
    assert("ANGLE_instanced_arrays"@.len() == 22);
    assert("EXT_blend_minmax"@.len() == 16);
    assert("EXT_color_buffer_half_float"@.len() == 27);
    assert("EXT_disjoint_timer_query"@.len() == 24);
    assert("EXT_frag_depth"@.len() == 14);
    assert("EXT_shader_texture_lod"@.len() == 22);
    assert("EXT_texture_filter_anisotropic"@.len() == 30);
    assert("OES_element_index_uint"@.len() == 22);
    assert("OES_standard_derivatives"@.len() == 24);
    assert("OES_texture_float"@.len() == 17);
    assert("OES_texture_float_linear"@.len() == 24);
    assert("OES_texture_half_float"@.len() == 22);
    assert("OES_texture_half_float_linear"@.len() == 29);
    assert("OES_vertex_array_object"@.len() == 23);
    assert("WEBGL_color_buffer_float"@.len() == 24);
    assert("WEBGL_compressed_texture_s3tc"@.len() == 29);
    assert("WEBGL_debug_renderer_info"@.len() == 25);
    assert("WEBGL_debug_shaders"@.len() == 19);
    assert("WEBGL_depth_texture"@.len() == 19);
    assert("WEBGL_draw_buffers"@.len() == 18);
    assert("WEBGL_lose_context"@.len() == 18);
    assert("ANGLE_instanced_arrays"@[0] == 'A' && "EXT_shader_texture_lod"@[0] == 'E');
    assert("ANGLE_instanced_arrays"@[0] == 'A' && "OES_element_index_uint"@[0] == 'O');
    assert("ANGLE_instanced_arrays"@[0] == 'A' && "OES_texture_half_float"@[0] == 'O');
    assert("EXT_disjoint_timer_query"@[0] == 'E' && "OES_standard_derivatives"@[0] == 'O');
    assert("EXT_disjoint_timer_query"@[0] == 'E' && "OES_texture_float_linear"@[0] == 'O');
    assert("EXT_disjoint_timer_query"@[0] == 'E' && "WEBGL_color_buffer_float"@[0] == 'W');
    assert("EXT_shader_texture_lod"@[0] == 'E' && "OES_element_index_uint"@[0] == 'O');
    assert("EXT_shader_texture_lod"@[0] == 'E' && "OES_texture_half_float"@[0] == 'O');
    assert("OES_element_index_uint"@[4] == 'e' && "OES_texture_half_float"@[4] == 't');
    assert("OES_standard_derivatives"@[0] == 'O' && "WEBGL_color_buffer_float"@[0] == 'W');
    assert("OES_standard_derivatives"@[4] == 's' && "OES_texture_float_linear"@[4] == 't');
    assert("OES_texture_float_linear"@[0] == 'O' && "WEBGL_color_buffer_float"@[0] == 'W');
    assert("OES_texture_half_float_linear"@[0] == 'O' && "WEBGL_compressed_texture_s3tc"@[0] == 'W');
    assert("WEBGL_debug_shaders"@[8] == 'b' && "WEBGL_depth_texture"@[8] == 'p');
    assert("WEBGL_draw_buffers"@[6] == 'd' && "WEBGL_lose_context"@[6] == 'l');
    match e {
        Extension::AngleInstancedArrays => {
            assert(spec_extension_from_name(spec_extension_name(e)) == Some(e));
        },
        Extension::ExtBlendMinmax => {
            assert(spec_extension_from_name(spec_extension_name(e)) == Some(e));
        },
        Extension::ExtColorBufferHalfFloat => {
            assert(spec_extension_from_name(spec_extension_name(e)) == Some(e));
        },
        Extension::ExtDisjointTimerQuery => {
            assert(spec_extension_from_name(spec_extension_name(e)) == Some(e));
        },
        Extension::ExtFragDepth => {
            assert(spec_extension_from_name(spec_extension_name(e)) == Some(e));
        },
        Extension::ExtShaderTextureLod => {
            assert(spec_extension_from_name(spec_extension_name(e)) == Some(e));
        },
        Extension::ExtTextureFilterAnisotropic => {
            assert(spec_extension_from_name(spec_extension_name(e)) == Some(e));
        },
        Extension::OesElementIndexUint => {
            assert(spec_extension_from_name(spec_extension_name(e)) == Some(e));
        },
        Extension::OesStandardDerivatives => {
            assert(spec_extension_from_name(spec_extension_name(e)) == Some(e));
        },
        Extension::OesTextureFloat => {
            assert(spec_extension_from_name(spec_extension_name(e)) == Some(e));
        },
        Extension::OesTextureFloatLinear => {
            assert(spec_extension_from_name(spec_extension_name(e)) == Some(e));
        },
        Extension::OesTextureHalfFloat => {
            assert(spec_extension_from_name(spec_extension_name(e)) == Some(e));
        },
        Extension::OesTextureHalfFloatLinear => {
            assert(spec_extension_from_name(spec_extension_name(e)) == Some(e));
        },
        Extension::OesVertexArrayObject => {
            assert(spec_extension_from_name(spec_extension_name(e)) == Some(e));
        },
        Extension::WebglColorBufferFloat => {
            assert(spec_extension_from_name(spec_extension_name(e)) == Some(e));
        },
        Extension::WebglCompressedTextureS3tc => {
            assert(spec_extension_from_name(spec_extension_name(e)) == Some(e));
        },
        Extension::WebglDebugRendererInfo => {
            assert(spec_extension_from_name(spec_extension_name(e)) == Some(e));
        },
        Extension::WebglDebugShaders => {
            assert(spec_extension_from_name(spec_extension_name(e)) == Some(e));
        },
        Extension::WebglDepthTexture => {
            assert(spec_extension_from_name(spec_extension_name(e)) == Some(e));
        },
        Extension::WebglDrawBuffers => {
            assert(spec_extension_from_name(spec_extension_name(e)) == Some(e));
        },
        Extension::WebglLoseContext => {
            assert(spec_extension_from_name(spec_extension_name(e)) == Some(e));
        },
    }
}

/// A name that reads as an extension is that extension's name.
pub proof fn law_extension_from_name_is_name(s: Seq<char>)
    ensures
        spec_extension_from_name(s) matches Some(e) ==> spec_extension_name(e) == s,
{
}
/// WebGL pipeline state. The clear colour and clear depth, which are floating point,
/// are kept by the caller that drives the device.
#[derive(Debug)]
pub struct WebGLState {
    pub array_buffer: Option<u32>,
    pub element_array_buffer: Option<u32>,
    pub current_program: Option<u32>,
    pub viewport: (i32, i32, i32, i32),
    pub scissor: (i32, i32, i32, i32),
    pub clear_stencil: i32,
    pub capabilities: HashMap<u32, bool>,
    pub blend_src: u32,
    pub blend_dst: u32,
    pub depth_func: u32,
    pub depth_mask: bool,
    pub stencil_func: u32,
    pub stencil_ref: i32,
    pub stencil_mask: u32,
    pub active_texture: u32,
    pub texture_bindings: HashMap<u32, HashMap<u32, u32>>,
    pub framebuffer: Option<u32>,
    pub renderbuffer: Option<u32>,
    pub vertex_attrib_enabled: HashMap<u32, bool>,
}

/// The capabilities a new state starts with: dithering on, the others off.
pub open spec fn initial_capabilities() -> Map<u32, bool> {
    map![
        BLEND => false,
        CULL_FACE => false,
        DEPTH_TEST => false,
        DITHER => true,
        SCISSOR_TEST => false,
        STENCIL_TEST => false
    ]
}

/// The buffer bound to a target: array and element-array buffers only.
pub open spec fn bound_buffer(s: WebGLState, target: u32) -> Option<u32> {
    if target == ARRAY_BUFFER {
        s.array_buffer
    } else if target == ELEMENT_ARRAY_BUFFER {
        s.element_array_buffer
    } else {
        None
    }
}

/// The texture bindings of a unit, as a map from target to texture.
pub open spec fn unit_bindings(s: WebGLState, unit: u32) -> Map<u32, u32> {
    if s.texture_bindings@.contains_key(unit) {
        s.texture_bindings@[unit]@
    } else {
        Map::empty()
    }
}

impl WebGLState {
    /// The default state.
    pub fn new() -> (r: Self)
        ensures
            r.array_buffer is None && r.element_array_buffer is None && r.current_program is None,
            r.viewport == (0i32, 0i32, 0i32, 0i32) && r.scissor == (0i32, 0i32, 0i32, 0i32),
            r.clear_stencil == 0,
            r.capabilities@ == initial_capabilities(),
            r.blend_src == ONE && r.blend_dst == ZERO,
            r.depth_func == 0x0201 && r.depth_mask,
            r.stencil_func == 0x0207 && r.stencil_ref == 0 && r.stencil_mask == 0xFFFFFFFF,
            r.active_texture == 0x84C0,
            r.texture_bindings@ == Map::<u32, HashMap<u32, u32>>::empty(),
            r.framebuffer is None && r.renderbuffer is None,
            r.vertex_attrib_enabled@ == Map::<u32, bool>::empty(),
    {
        let mut capabilities: HashMap<u32, bool> = HashMap::new();
        capabilities.insert(BLEND, false);
        capabilities.insert(CULL_FACE, false);
        capabilities.insert(DEPTH_TEST, false);
        capabilities.insert(DITHER, true);
        capabilities.insert(SCISSOR_TEST, false);
        capabilities.insert(STENCIL_TEST, false);
        assert(capabilities@ =~= initial_capabilities());
        WebGLState {
            array_buffer: None,
            element_array_buffer: None,
            current_program: None,
            viewport: (0, 0, 0, 0),
            scissor: (0, 0, 0, 0),
            clear_stencil: 0,
            capabilities,
            blend_src: ONE,
            blend_dst: ZERO,
            depth_func: 0x0201,
            depth_mask: true,
            stencil_func: 0x0207,
            stencil_ref: 0,
            stencil_mask: 0xFFFFFFFF,
            active_texture: 0x84C0,
            texture_bindings: HashMap::new(),
            framebuffer: None,
            renderbuffer: None,
            vertex_attrib_enabled: HashMap::new(),
        }
    }

    /// Bind a buffer to the array or element-array target; other targets are ignored.
    pub fn bind_buffer(&mut self, target: u32, id: u32)
        ensures
            *final(self) == (WebGLState {
                array_buffer: if target == ARRAY_BUFFER { Some(id) } else { old(self).array_buffer },
                element_array_buffer: if target == ELEMENT_ARRAY_BUFFER { Some(id) } else { old(self).element_array_buffer },
                ..*old(self)
            }),
    {
        if target == ARRAY_BUFFER {
            self.array_buffer = Some(id);
        } else if target == ELEMENT_ARRAY_BUFFER {
            self.element_array_buffer = Some(id);
        }
    }

    /// The buffer bound to a target.
    pub fn get_bound_buffer(&self, target: u32) -> (r: Option<u32>)
        ensures
            r == bound_buffer(*self, target),
    {
        if target == ARRAY_BUFFER {
            self.array_buffer
        } else if target == ELEMENT_ARRAY_BUFFER {
            self.element_array_buffer
        } else {
            None
        }
    }

    /// Make a program current.
    pub fn use_program(&mut self, id: u32)
        ensures
            *final(self) == (WebGLState { current_program: Some(id), ..*old(self) }),
    {
        self.current_program = Some(id);
    }

    /// Set the viewport.
    pub fn set_viewport(&mut self, x: i32, y: i32, width: i32, height: i32)
        ensures
            *final(self) == (WebGLState { viewport: (x, y, width, height), ..*old(self) }),
    {
        self.viewport = (x, y, width, height);
    }

    /// Set the scissor box.
    pub fn set_scissor(&mut self, x: i32, y: i32, width: i32, height: i32)
        ensures
            *final(self) == (WebGLState { scissor: (x, y, width, height), ..*old(self) }),
    {
        self.scissor = (x, y, width, height);
    }

    /// Enable a capability.
    pub fn enable(&mut self, cap: u32)
        ensures
            final(self).capabilities@ == old(self).capabilities@.insert(cap, true),
            *final(self) == (WebGLState { capabilities: final(self).capabilities, ..*old(self) }),
    {
        self.capabilities.insert(cap, true);
    }

    /// Disable a capability.
    pub fn disable(&mut self, cap: u32)
        ensures
            final(self).capabilities@ == old(self).capabilities@.insert(cap, false),
            *final(self) == (WebGLState { capabilities: final(self).capabilities, ..*old(self) }),
    {
        self.capabilities.insert(cap, false);
    }

    /// Whether a capability is enabled; an unknown one is not.
    pub fn is_enabled(&self, cap: u32) -> (r: bool)
        ensures
            r == (self.capabilities@.contains_key(cap) && self.capabilities@[cap]),
    {
        match self.capabilities.get(&cap) {
            Some(b) => *b,
            None => false,
        }
    }

    /// Set the blend factors.
    pub fn set_blend_func(&mut self, sfactor: u32, dfactor: u32)
        ensures
            *final(self) == (WebGLState { blend_src: sfactor, blend_dst: dfactor, ..*old(self) }),
    {
        self.blend_src = sfactor;
        self.blend_dst = dfactor;
    }

    /// Set the depth function.
    pub fn set_depth_func(&mut self, func: u32)
        ensures
            *final(self) == (WebGLState { depth_func: func, ..*old(self) }),
    {
        self.depth_func = func;
    }

    /// Bind a texture to a target of the active texture unit.
    pub fn bind_texture(&mut self, target: u32, id: u32)
        ensures
            final(self).active_texture == old(self).active_texture,
            unit_bindings(*final(self), old(self).active_texture) == unit_bindings(*old(self), old(self).active_texture).insert(target, id),
            forall|u: u32| u != old(self).active_texture ==> #[trigger] unit_bindings(*final(self), u) == unit_bindings(*old(self), u),
            *final(self) == (WebGLState { texture_bindings: final(self).texture_bindings, ..*old(self) }),
    {
        let unit = self.active_texture;
        let mut inner = match self.texture_bindings.remove(&unit) {
            Some(m) => m,
            None => HashMap::new(),
        };
        inner.insert(target, id);
        self.texture_bindings.insert(unit, inner);
    }

    /// Select the active texture unit.
    pub fn active_texture(&mut self, texture: u32)
        ensures
            *final(self) == (WebGLState { active_texture: texture, ..*old(self) }),
    {
        self.active_texture = texture;
    }

    /// Enable a vertex attribute array.
    pub fn enable_vertex_attrib_array(&mut self, index: u32)
        ensures
            final(self).vertex_attrib_enabled@ == old(self).vertex_attrib_enabled@.insert(index, true),
            *final(self) == (WebGLState { vertex_attrib_enabled: final(self).vertex_attrib_enabled, ..*old(self) }),
    {
        self.vertex_attrib_enabled.insert(index, true);
    }

    /// Disable a vertex attribute array.
    pub fn disable_vertex_attrib_array(&mut self, index: u32)
        ensures
            final(self).vertex_attrib_enabled@ == old(self).vertex_attrib_enabled@.insert(index, false),
            *final(self) == (WebGLState { vertex_attrib_enabled: final(self).vertex_attrib_enabled, ..*old(self) }),
    {
        self.vertex_attrib_enabled.insert(index, false);
    }
}

/// A WebGL rendering context's objects and state. The GPU device, and what it holds
/// for each object, are kept by the caller that drives the device.
pub struct WebGLContext {
    version: WebGLVersion,
    state: WebGLState,
    buffers: HashMap<u32, Buffer>,
    shaders: HashMap<u32, Shader>,
    programs: HashMap<u32, Program>,
    textures: HashMap<u32, Texture>,
    framebuffers: HashMap<u32, Framebuffer>,
    next_id: u32,
    context_lost: bool,
}

/// A shader's contents as plain values: ID, stage, source, compile status, info log.
pub open spec fn shader_view(s: Shader) -> (u32, ShaderType, Option<Seq<char>>, bool, Seq<char>) {
    (s.spec_id(), s.spec_type(), s.spec_source(), s.spec_compiled(), s.spec_info_log())
}

/// A program's contents as plain values: ID, attached shaders, link status, info log.
pub open spec fn program_view(p: Program) -> (u32, Seq<u32>, bool, Seq<char>) {
    (p.spec_id(), p.spec_shaders(), p.spec_linked(), p.spec_info_log())
}

/// The shaders of a context as plain values.
pub open spec fn shader_views(m: Map<u32, Shader>) -> Map<u32, (u32, ShaderType, Option<Seq<char>>, bool, Seq<char>)> {
    m.map_values(|s: Shader| shader_view(s))
}

/// The programs of a context as plain values.
pub open spec fn program_views(m: Map<u32, Program>) -> Map<u32, (u32, Seq<u32>, bool, Seq<char>)> {
    m.map_values(|p: Program| program_view(p))
}

/// Whether `b` has the pipeline state, version and lost flag of `a`.
pub open spec fn keeps_settings(a: WebGLContext, b: WebGLContext) -> bool {
    &&& b.state() == a.state()
    &&& b.spec_version() == a.spec_version()
    &&& b.spec_lost() == a.spec_lost()
}

/// Whether `b` holds the objects, ID counter, version and lost flag of `a`.
pub open spec fn keeps_objects(a: WebGLContext, b: WebGLContext) -> bool {
    &&& b.buffers() == a.buffers()
    &&& b.shaders() == a.shaders()
    &&& b.programs() == a.programs()
    &&& b.next_id() == a.next_id()
    &&& b.spec_version() == a.spec_version()
    &&& b.spec_lost() == a.spec_lost()
}

impl WebGLContext {
    /// The buffers by ID.
    pub closed spec fn buffers(&self) -> Map<u32, Buffer> {
        self.buffers@
    }

    /// The shaders by ID.
    pub closed spec fn shaders(&self) -> Map<u32, Shader> {
        self.shaders@
    }

    /// The programs by ID.
    pub closed spec fn programs(&self) -> Map<u32, Program> {
        self.programs@
    }

    /// The ID the next object receives.
    pub closed spec fn next_id(&self) -> u32 {
        self.next_id
    }

    /// The pipeline state.
    pub closed spec fn state(&self) -> WebGLState {
        self.state
    }

    /// The context's invariant: every object is stored under its own ID, and every ID
    /// handed out lies below the next one.
    pub closed spec fn wf(&self) -> bool {
        &&& self.next_id >= 1
        &&& forall|k: u32| #[trigger] self.buffers@.contains_key(k) ==> k < self.next_id && self.buffers@[k].spec_id() == k
        &&& forall|k: u32| #[trigger] self.shaders@.contains_key(k) ==> k < self.next_id && self.shaders@[k].spec_id() == k
        &&& forall|k: u32| #[trigger] self.programs@.contains_key(k) ==> k < self.next_id && self.programs@[k].spec_id() == k
    }

    /// A context with no objects and the default state; IDs start at 1.
    pub fn new(version: WebGLVersion) -> (r: Self)
        ensures
            r.wf(),
            r.spec_version() == version,
            !r.spec_lost(),
            r.next_id() == 1,
            r.buffers() == Map::<u32, Buffer>::empty(),
            r.shaders() == Map::<u32, Shader>::empty(),
            r.programs() == Map::<u32, Program>::empty(),
    {
        WebGLContext {
            version,
            state: WebGLState::new(),
            buffers: HashMap::new(),
            shaders: HashMap::new(),
            programs: HashMap::new(),
            textures: HashMap::new(),
            framebuffers: HashMap::new(),
            next_id: 1,
            context_lost: false,
        }
    }

    /// The WebGL version.
    pub closed spec fn spec_version(&self) -> WebGLVersion {
        self.version
    }

    /// Whether the context is lost.
    pub closed spec fn spec_lost(&self) -> bool {
        self.context_lost
    }

    /// The WebGL version.
    pub fn version(&self) -> (r: WebGLVersion)
        ensures
            r == self.spec_version(),
    {
        self.version
    }

    /// Whether the context is lost.
    pub fn is_context_lost(&self) -> (r: bool)
        ensures
            r == self.spec_lost(),
    {
        self.context_lost
    }

    /// The ID of the buffer bound to `target`, if any.
    pub fn bound_buffer_id(&self, target: u32) -> (r: Option<u32>)
        ensures
            r == bound_buffer(self.state(), target),
    {
        self.state.get_bound_buffer(target)
    }

    /// Whether another object can be created: IDs are not used up.
    pub fn can_allocate(&self) -> (r: bool)
        ensures
            r == (self.next_id() < u32::MAX),
    {
        self.next_id < u32::MAX
    }

    fn gen_id(&mut self) -> (r: u32)
        requires
            old(self).next_id < u32::MAX,
        ensures
            r == old(self).next_id,
            final(self).next_id == old(self).next_id + 1,
            final(self).buffers@ == old(self).buffers@,
            final(self).shaders@ == old(self).shaders@,
            final(self).programs@ == old(self).programs@,
            final(self).state == old(self).state,
            final(self).version == old(self).version,
            final(self).context_lost == old(self).context_lost,
    {
        let id = self.next_id;
        self.next_id = self.next_id + 1;
        id
    }

    /// Create a buffer under a fresh ID and return the ID.
    pub fn create_buffer(&mut self) -> (r: u32)
        requires
            old(self).wf(),
            old(self).next_id() < u32::MAX,
        ensures
            final(self).wf(),
            final(self).spec_version() == old(self).spec_version(),
            final(self).spec_lost() == old(self).spec_lost(),
            r == old(self).next_id(),
            !old(self).buffers().contains_key(r),
            final(self).next_id() == old(self).next_id() + 1,
            final(self).buffers().dom() == old(self).buffers().dom().insert(r),
            forall|k: u32| k != r && #[trigger] old(self).buffers().contains_key(k) ==> final(self).buffers()[k] == old(self).buffers()[k],
            final(self).buffers()[r].spec_size() == 0,
            final(self).buffers()[r].spec_usage() == BufferUsage::StaticDraw,
            final(self).shaders() == old(self).shaders(),
            final(self).programs() == old(self).programs(),
            final(self).state() == old(self).state(),
    {
        let id = self.gen_id();
        self.buffers.insert(id, Buffer::new(id));
        id
    }

    /// Delete a buffer.
    pub fn delete_buffer(&mut self, id: u32)
        requires
            old(self).wf(),
        ensures
            final(self).wf(),
            final(self).spec_version() == old(self).spec_version(),
            final(self).spec_lost() == old(self).spec_lost(),
            final(self).buffers() == old(self).buffers().remove(id),
            final(self).next_id() == old(self).next_id(),
            final(self).shaders() == old(self).shaders(),
            final(self).programs() == old(self).programs(),
            final(self).state() == old(self).state(),
    {
        self.buffers.remove(&id);
    }

    /// Bind a buffer: `InvalidOperation` for an ID that names no buffer.
    pub fn bind_buffer(&mut self, target: u32, id: u32) -> (r: Result<(), WebGLError>)
        requires
            old(self).wf(),
        ensures
            final(self).wf(),
            final(self).spec_version() == old(self).spec_version(),
            final(self).spec_lost() == old(self).spec_lost(),
            final(self).buffers() == old(self).buffers(),
            final(self).shaders() == old(self).shaders(),
            final(self).programs() == old(self).programs(),
            final(self).next_id() == old(self).next_id(),
            old(self).buffers().contains_key(id) ==> r is Ok && final(self).state() == (WebGLState {
                array_buffer: if target == ARRAY_BUFFER { Some(id) } else { old(self).state().array_buffer },
                element_array_buffer: if target == ELEMENT_ARRAY_BUFFER { Some(id) } else { old(self).state().element_array_buffer },
                ..old(self).state()
            }),
            !old(self).buffers().contains_key(id) ==> (r matches Err(WebGLError::InvalidOperation(_))
                && final(self).state() == old(self).state()),
    {
        if self.buffers.contains_key(&id) {
            self.state.bind_buffer(target, id);
            Ok(())
        } else {
            Err(WebGLError::InvalidOperation(to_owned_string("Invalid buffer")))
        }
    }

    /// Set the data of the buffer bound to `target`: `InvalidOperation` where none is
    /// bound or the bound ID names no buffer, `InvalidEnum` for an unknown usage.
    pub fn buffer_data(&mut self, target: u32, data: &[u8], usage: u32) -> (r: Result<(), WebGLError>)
        requires
            old(self).wf(),
        ensures
            final(self).wf(),
            final(self).spec_version() == old(self).spec_version(),
            final(self).spec_lost() == old(self).spec_lost(),
            final(self).state() == old(self).state(),
            final(self).next_id() == old(self).next_id(),
            final(self).shaders() == old(self).shaders(),
            final(self).programs() == old(self).programs(),
            final(self).buffers().dom() == old(self).buffers().dom(),
            match bound_buffer(old(self).state(), target) {
                None => r matches Err(WebGLError::InvalidOperation(_)) && final(self).buffers() == old(self).buffers(),
                Some(b) => if !old(self).buffers().contains_key(b) {
                    r matches Err(WebGLError::InvalidOperation(_)) && final(self).buffers() == old(self).buffers()
                } else {
                    match spec_usage_of(usage) {
                        None => r matches Err(WebGLError::InvalidEnum(_)) && final(self).buffers() == old(self).buffers(),
                        Some(u) => r is Ok && final(self).buffers()[b].spec_size() == data.len()
                            && final(self).buffers()[b].spec_usage() == u
                            && forall|k: u32| k != b && #[trigger] old(self).buffers().contains_key(k) ==> final(self).buffers()[k] == old(self).buffers()[k],
                    }
                },
            },
    {
        let bound = match self.state.get_bound_buffer(target) {
            Some(b) => b,
            None => return Err(WebGLError::InvalidOperation(to_owned_string("No buffer bound"))),
        };
        match self.buffers.remove(&bound) {
            Some(mut buffer) => {
                let ghost before = buffer;
                let res = buffer.set_data(data.len() as u64, usage);
                self.buffers.insert(bound, buffer);
                assert(res is Err ==> self.buffers@ =~= old(self).buffers@);
                res
            },
            None => Err(WebGLError::InvalidOperation(to_owned_string("Invalid buffer"))),
        }
    }

    /// Create a shader of the stage that `shader_type` names, under a fresh ID. The ID
    /// is used up even where the stage is unknown (`InvalidEnum`).
    pub fn create_shader(&mut self, shader_type: u32) -> (r: Result<u32, WebGLError>)
        requires
            old(self).wf(),
            old(self).next_id() < u32::MAX,
        ensures
            final(self).wf(),
            final(self).spec_version() == old(self).spec_version(),
            final(self).spec_lost() == old(self).spec_lost(),
            final(self).next_id() == old(self).next_id() + 1,
            final(self).buffers() == old(self).buffers(),
            final(self).programs() == old(self).programs(),
            final(self).state() == old(self).state(),
            match spec_shader_type_of(shader_type) {
                None => r matches Err(WebGLError::InvalidEnum(_)) && final(self).shaders() == old(self).shaders(),
                Some(t) => r == Ok::<u32, WebGLError>(old(self).next_id())
                    && !old(self).shaders().contains_key(old(self).next_id())
                    && final(self).shaders().dom() == old(self).shaders().dom().insert(old(self).next_id())
                    && final(self).shaders()[old(self).next_id()].spec_type() == t
                    && final(self).shaders()[old(self).next_id()].spec_source() is None
                    && !final(self).shaders()[old(self).next_id()].spec_compiled(),
            },
    {
        let id = self.gen_id();
        let shader = match Shader::new(id, shader_type) {
            Ok(s) => s,
            Err(e) => return Err(e),
        };
        self.shaders.insert(id, shader);
        Ok(id)
    }

    /// Delete a shader.
    pub fn delete_shader(&mut self, id: u32)
        requires
            old(self).wf(),
        ensures
            final(self).wf(),
            final(self).spec_version() == old(self).spec_version(),
            final(self).spec_lost() == old(self).spec_lost(),
            final(self).shaders() == old(self).shaders().remove(id),
            final(self).buffers() == old(self).buffers(),
            final(self).programs() == old(self).programs(),
            final(self).next_id() == old(self).next_id(),
    {
        self.shaders.remove(&id);
    }

    /// Set a shader's source: `InvalidOperation` for an ID that names no shader.
    pub fn shader_source(&mut self, id: u32, source: String) -> (r: Result<(), WebGLError>)
        requires
            old(self).wf(),
        ensures
            final(self).wf(),
            final(self).buffers() == old(self).buffers(),
            final(self).programs() == old(self).programs(),
            final(self).next_id() == old(self).next_id(),
            keeps_settings(*old(self), *final(self)),
            final(self).shaders().dom() == old(self).shaders().dom(),
            old(self).shaders().contains_key(id) ==> r is Ok && ({
                let v = shader_view(old(self).shaders()[id]);
                shader_views(final(self).shaders()) == shader_views(old(self).shaders()).insert(id, (v.0, v.1, Some(source@), false, v.4))
            }),
            !old(self).shaders().contains_key(id) ==> (r matches Err(WebGLError::InvalidOperation(_))
                && final(self).shaders() == old(self).shaders()),
    {
        match self.shaders.remove(&id) {
            Some(mut shader) => {
                shader.set_source(source);
                self.shaders.insert(id, shader);
                Ok(())
            },
            None => Err(WebGLError::InvalidOperation(to_owned_string("Invalid shader"))),
        }
    }

    /// Compile a shader, giving the WGSL source that the device compiles:
    /// `InvalidOperation` for an ID that names no shader or a shader with no source.
    pub fn compile_shader(&mut self, id: u32) -> (r: Result<String, WebGLError>)
        requires
            old(self).wf(),
        ensures
            final(self).wf(),
            final(self).buffers() == old(self).buffers(),
            final(self).programs() == old(self).programs(),
            final(self).next_id() == old(self).next_id(),
            keeps_settings(*old(self), *final(self)),
            final(self).shaders().dom() == old(self).shaders().dom(),
            !old(self).shaders().contains_key(id) ==> (r matches Err(WebGLError::InvalidOperation(_))
                && shader_views(final(self).shaders()) == shader_views(old(self).shaders())),
            old(self).shaders().contains_key(id) && old(self).shaders()[id].spec_source() is None
                ==> (r matches Err(WebGLError::InvalidOperation(_))
                && shader_views(final(self).shaders()) == shader_views(old(self).shaders())),
            old(self).shaders().contains_key(id) && old(self).shaders()[id].spec_source() is Some
                ==> (r matches Ok(w) && w@ == spec_wgsl_source(old(self).shaders()[id].spec_type())) && ({
                let v = shader_view(old(self).shaders()[id]);
                shader_views(final(self).shaders()) == shader_views(old(self).shaders()).insert(id, (v.0, v.1, v.2, true, "Compilation successful"@))
            }),
    {
        match self.shaders.remove(&id) {
            Some(mut shader) => {
                let res = shader.compile();
                self.shaders.insert(id, shader);
                res
            },
            None => Err(WebGLError::InvalidOperation(to_owned_string("Invalid shader"))),
        }
    }

    /// A shader parameter: `InvalidOperation` for an ID that names no shader.
    pub fn get_shader_parameter(&self, id: u32, pname: u32) -> (r: Result<i32, WebGLError>)
        requires
            self.wf(),
        ensures
            !self.shaders().contains_key(id) ==> (r matches Err(WebGLError::InvalidOperation(_))),
            self.shaders().contains_key(id) && pname == 0x8B81 ==> r == Ok::<i32, WebGLError>(
                if self.shaders()[id].spec_compiled() { 1i32 } else { 0i32 }),
            self.shaders().contains_key(id) && pname != 0x8B81 && pname != 0x8B84 && pname != 0x8B88
                ==> (r matches Err(WebGLError::InvalidEnum(_))),
    {
        match self.shaders.get(&id) {
            Some(shader) => shader.get_parameter(pname),
            None => Err(WebGLError::InvalidOperation(to_owned_string("Invalid shader"))),
        }
    }

    /// A shader's info log: `InvalidOperation` for an ID that names no shader.
    pub fn get_shader_info_log(&self, id: u32) -> (r: Result<String, WebGLError>)
        requires
            self.wf(),
        ensures
            !self.shaders().contains_key(id) ==> (r matches Err(WebGLError::InvalidOperation(_))),
            self.shaders().contains_key(id) ==> (r matches Ok(s) && s@ == self.shaders()[id].spec_info_log()),
    {
        match self.shaders.get(&id) {
            Some(shader) => Ok(shader.get_info_log()),
            None => Err(WebGLError::InvalidOperation(to_owned_string("Invalid shader"))),
        }
    }

    /// Create a program under a fresh ID and return the ID.
    pub fn create_program(&mut self) -> (r: u32)
        requires
            old(self).wf(),
            old(self).next_id() < u32::MAX,
        ensures
            final(self).wf(),
            final(self).spec_version() == old(self).spec_version(),
            final(self).spec_lost() == old(self).spec_lost(),
            r == old(self).next_id(),
            !old(self).programs().contains_key(r),
            final(self).next_id() == old(self).next_id() + 1,
            final(self).programs().dom() == old(self).programs().dom().insert(r),
            final(self).programs()[r].spec_shaders() == Seq::<u32>::empty(),
            !final(self).programs()[r].spec_linked(),
            final(self).buffers() == old(self).buffers(),
            final(self).shaders() == old(self).shaders(),
            final(self).state() == old(self).state(),
    {
        let id = self.gen_id();
        self.programs.insert(id, Program::new(id));
        id
    }

    /// Delete a program.
    pub fn delete_program(&mut self, id: u32)
        requires
            old(self).wf(),
        ensures
            final(self).wf(),
            final(self).spec_version() == old(self).spec_version(),
            final(self).spec_lost() == old(self).spec_lost(),
            final(self).programs() == old(self).programs().remove(id),
            final(self).buffers() == old(self).buffers(),
            final(self).shaders() == old(self).shaders(),
            final(self).next_id() == old(self).next_id(),
    {
        self.programs.remove(&id);
    }

    /// Attach a shader to a program: `InvalidOperation` where either ID names nothing.
    pub fn attach_shader(&mut self, program_id: u32, shader_id: u32) -> (r: Result<(), WebGLError>)
        requires
            old(self).wf(),
        ensures
            final(self).wf(),
            final(self).buffers() == old(self).buffers(),
            final(self).shaders() == old(self).shaders(),
            final(self).next_id() == old(self).next_id(),
            keeps_settings(*old(self), *final(self)),
            final(self).programs().dom() == old(self).programs().dom(),
            !old(self).programs().contains_key(program_id) || !old(self).shaders().contains_key(shader_id)
                ==> (r matches Err(WebGLError::InvalidOperation(_)) && final(self).programs() == old(self).programs()),
            old(self).programs().contains_key(program_id) && old(self).shaders().contains_key(shader_id)
                ==> r is Ok && ({
                    let v = program_view(old(self).programs()[program_id]);
                    program_views(final(self).programs()) == program_views(old(self).programs()).insert(program_id, (v.0, v.1.push(shader_id), v.2, v.3))
                }),
    {
        if !self.programs.contains_key(&program_id) {
            return Err(WebGLError::InvalidOperation(to_owned_string("Invalid program")));
        }
        if !self.shaders.contains_key(&shader_id) {
            return Err(WebGLError::InvalidOperation(to_owned_string("Invalid shader")));
        }
        match self.programs.remove(&program_id) {
            Some(mut program) => {
                program.attach_shader(shader_id);
                self.programs.insert(program_id, program);
                Ok(())
            },
            None => Err(WebGLError::InvalidOperation(to_owned_string("Invalid program"))),
        }
    }

    /// Link a program: `InvalidOperation` for an ID that names no program,
    /// `ProgramLinkingFailed` for one with fewer than two shaders.
    pub fn link_program(&mut self, id: u32) -> (r: Result<(), WebGLError>)
        requires
            old(self).wf(),
        ensures
            final(self).wf(),
            final(self).buffers() == old(self).buffers(),
            final(self).shaders() == old(self).shaders(),
            final(self).next_id() == old(self).next_id(),
            keeps_settings(*old(self), *final(self)),
            final(self).programs().dom() == old(self).programs().dom(),
            !old(self).programs().contains_key(id) ==> (r matches Err(WebGLError::InvalidOperation(_))
                && program_views(final(self).programs()) == program_views(old(self).programs())),
            old(self).programs().contains_key(id) && old(self).programs()[id].spec_shaders().len() < 2
                ==> (r matches Err(WebGLError::ProgramLinkingFailed(_))
                && program_views(final(self).programs()) == program_views(old(self).programs())),
            old(self).programs().contains_key(id) && old(self).programs()[id].spec_shaders().len() >= 2
                ==> r is Ok && ({
                    let v = program_view(old(self).programs()[id]);
                    program_views(final(self).programs()) == program_views(old(self).programs()).insert(id, (v.0, v.1, true, "Link successful"@))
                }),
    {
        match self.programs.remove(&id) {
            Some(mut program) => {
                let res = program.link();
                self.programs.insert(id, program);
                res
            },
            None => Err(WebGLError::InvalidOperation(to_owned_string("Invalid program"))),
        }
    }

    /// Make a program current: `InvalidOperation` for an ID that names no program.
    pub fn use_program(&mut self, id: u32) -> (r: Result<(), WebGLError>)
        requires
            old(self).wf(),
        ensures
            final(self).wf(),
            final(self).spec_version() == old(self).spec_version(),
            final(self).spec_lost() == old(self).spec_lost(),
            final(self).buffers() == old(self).buffers(),
            final(self).shaders() == old(self).shaders(),
            final(self).programs() == old(self).programs(),
            final(self).next_id() == old(self).next_id(),
            old(self).programs().contains_key(id) ==> r is Ok
                && final(self).state() == (WebGLState { current_program: Some(id), ..old(self).state() }),
            !old(self).programs().contains_key(id) ==> (r matches Err(WebGLError::InvalidOperation(_))
                && final(self).state() == old(self).state()),
    {
        if self.programs.contains_key(&id) {
            self.state.use_program(id);
            Ok(())
        } else {
            Err(WebGLError::InvalidOperation(to_owned_string("Invalid program")))
        }
    }

    /// A program parameter: `InvalidOperation` for an ID that names no program.
    pub fn get_program_parameter(&self, id: u32, pname: u32) -> (r: Result<i32, WebGLError>)
        requires
            self.wf(),
        ensures
            !self.programs().contains_key(id) ==> (r matches Err(WebGLError::InvalidOperation(_))),
            self.programs().contains_key(id) && pname == 0x8B82 ==> r == Ok::<i32, WebGLError>(
                if self.programs()[id].spec_linked() { 1i32 } else { 0i32 }),
            self.programs().contains_key(id) && pname == 0x8B86 ==> r == Ok::<i32, WebGLError>(
                self.programs()[id].spec_shaders().len() as i32),
    {
        match self.programs.get(&id) {
            Some(program) => program.get_parameter(pname),
            None => Err(WebGLError::InvalidOperation(to_owned_string("Invalid program"))),
        }
    }

    /// A program's info log: `InvalidOperation` for an ID that names no program.
    pub fn get_program_info_log(&self, id: u32) -> (r: Result<String, WebGLError>)
        requires
            self.wf(),
        ensures
            !self.programs().contains_key(id) ==> (r matches Err(WebGLError::InvalidOperation(_))),
            self.programs().contains_key(id) ==> (r matches Ok(s) && s@ == self.programs()[id].spec_info_log()),
    {
        match self.programs.get(&id) {
            Some(program) => Ok(program.get_info_log()),
            None => Err(WebGLError::InvalidOperation(to_owned_string("Invalid program"))),
        }
    }

    /// Clear the drawing buffers: nothing is recorded.
    pub fn clear(&self, mask: u32) {
    }

    /// Draw arrays: `InvalidValue` for a negative count.
    pub fn draw_arrays(&self, mode: u32, first: i32, count: i32) -> (r: Result<(), WebGLError>)
        ensures
            count < 0 ==> (r matches Err(WebGLError::InvalidValue(_))),
            count >= 0 ==> r is Ok,
    {
        if count < 0 {
            return Err(WebGLError::InvalidValue(to_owned_string("count < 0")));
        }
        Ok(())
    }

    /// Draw elements: `InvalidValue` for a negative count.
    pub fn draw_elements(&self, mode: u32, count: i32, type_: u32, offset: i32) -> (r: Result<(), WebGLError>)
        ensures
            count < 0 ==> (r matches Err(WebGLError::InvalidValue(_))),
            count >= 0 ==> r is Ok,
    {
        if count < 0 {
            return Err(WebGLError::InvalidValue(to_owned_string("count < 0")));
        }
        Ok(())
    }

    /// Enable a capability.
    pub fn enable(&mut self, cap: u32)
        requires
            old(self).wf(),
        ensures
            final(self).wf(),
            final(self).state().capabilities@ == old(self).state().capabilities@.insert(cap, true),
            final(self).state() == (WebGLState { capabilities: final(self).state().capabilities, ..old(self).state() }),
            keeps_objects(*old(self), *final(self)),
    {
        self.state.enable(cap);
    }

    /// Disable a capability.
    pub fn disable(&mut self, cap: u32)
        requires
            old(self).wf(),
        ensures
            final(self).wf(),
            final(self).state().capabilities@ == old(self).state().capabilities@.insert(cap, false),
            final(self).state() == (WebGLState { capabilities: final(self).state().capabilities, ..old(self).state() }),
            keeps_objects(*old(self), *final(self)),
    {
        self.state.disable(cap);
    }

    /// Set the viewport.
    pub fn viewport(&mut self, x: i32, y: i32, width: i32, height: i32)
        requires
            old(self).wf(),
        ensures
            final(self).wf(),
            final(self).state() == (WebGLState { viewport: (x, y, width, height), ..old(self).state() }),
            keeps_objects(*old(self), *final(self)),
    {
        self.state.set_viewport(x, y, width, height);
    }

    /// Set the scissor box.
    pub fn scissor(&mut self, x: i32, y: i32, width: i32, height: i32)
        requires
            old(self).wf(),
        ensures
            final(self).wf(),
            final(self).state() == (WebGLState { scissor: (x, y, width, height), ..old(self).state() }),
            keeps_objects(*old(self), *final(self)),
    {
        self.state.set_scissor(x, y, width, height);
    }

    /// Set the blend factors.
    pub fn blend_func(&mut self, sfactor: u32, dfactor: u32)
        requires
            old(self).wf(),
        ensures
            final(self).wf(),
            final(self).state() == (WebGLState { blend_src: sfactor, blend_dst: dfactor, ..old(self).state() }),
            keeps_objects(*old(self), *final(self)),
    {
        self.state.set_blend_func(sfactor, dfactor);
    }

    /// Set the depth function.
    pub fn depth_func(&mut self, func: u32)
        requires
            old(self).wf(),
        ensures
            final(self).wf(),
            final(self).state() == (WebGLState { depth_func: func, ..old(self).state() }),
            keeps_objects(*old(self), *final(self)),
    {
        self.state.set_depth_func(func);
    }
}

} // verus!
