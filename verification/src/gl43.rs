//! The typed surface over the curated OpenGL 4.3 entry-point subset.
//!
//! Every handle and enumerant kind is its own type wrapping one native
//! integer, so that, for instance, a shader handle cannot be passed where a
//! buffer handle is expected even though both are the same integer at the
//! ABI level. Each type carries its published numeric codes as associated
//! constants, and a constructor per named value whose contract pins the
//! wrapped integer to exactly that code: the codes are wire-format constants
//! of the native specification, not implementation choices.
//!
//! Handles (shader, program, vertex array, buffer) are driver-issued and so
//! may be wrapped from any raw value; enumerant kinds other than the debug
//! categories expose no raw constructor, which keeps each of them a closed
//! set of named values.

use crate::resolve;
use crate::types::{GLbitField, GLenum, GLuint};
use crate::Error;
use vstd::prelude::*;

verus! {

/// One of the required native entry points: the curated subset this surface
/// binds. Construction resolves every one of them, so a constructed [`Api`]
/// answers for each variant here.
#[derive(Copy, Clone, Eq, PartialEq, Structural, Debug)]
pub enum EntryPoint {
    DebugMessageCallback,
    Enable,
    Clear,
    ClearColor,
    DrawArrays,
    GenVertexArrays,
    BindVertexArray,
    EnableVertexAttribArray,
    VertexAttribPointer,
    DeleteVertexArrays,
    GenBuffers,
    BindBuffer,
    BufferData,
    DeleteBuffer,
    CreateShader,
    ShaderSource,
    CompileShader,
    DeleteShader,
    CreateProgram,
    AttachShader,
    LinkProgram,
    UseProgram,
    DetachShader,
    DeleteProgram,
}

impl EntryPoint {
    /// The symbol name under which the driver exports this entry point.
    pub open spec fn spec_name(self) -> Seq<char> {
        match self {
            EntryPoint::DebugMessageCallback => "glDebugMessageCallback"@,
            EntryPoint::Enable => "glEnable"@,
            EntryPoint::Clear => "glClear"@,
            EntryPoint::ClearColor => "glClearColor"@,
            EntryPoint::DrawArrays => "glDrawArrays"@,
            EntryPoint::GenVertexArrays => "glGenVertexArrays"@,
            EntryPoint::BindVertexArray => "glBindVertexArray"@,
            EntryPoint::EnableVertexAttribArray => "glEnableVertexAttribArray"@,
            EntryPoint::VertexAttribPointer => "glVertexAttribPointer"@,
            EntryPoint::DeleteVertexArrays => "glDeleteVertexArrays"@,
            EntryPoint::GenBuffers => "glGenBuffers"@,
            EntryPoint::BindBuffer => "glBindBuffer"@,
            EntryPoint::BufferData => "glBufferData"@,
            EntryPoint::DeleteBuffer => "glDeleteBuffer"@,
            EntryPoint::CreateShader => "glCreateShader"@,
            EntryPoint::ShaderSource => "glShaderSource"@,
            EntryPoint::CompileShader => "glCompileShader"@,
            EntryPoint::DeleteShader => "glDeleteShader"@,
            EntryPoint::CreateProgram => "glCreateProgram"@,
            EntryPoint::AttachShader => "glAttachShader"@,
            EntryPoint::LinkProgram => "glLinkProgram"@,
            EntryPoint::UseProgram => "glUseProgram"@,
            EntryPoint::DetachShader => "glDetachShader"@,
            EntryPoint::DeleteProgram => "glDeleteProgram"@,
        }
    }

    /// The exported symbol name of this entry point.
    pub fn name(self) -> (r: &'static str)
        ensures
            r@ == self.spec_name(),
    {
        match self {
            EntryPoint::DebugMessageCallback => "glDebugMessageCallback",
            EntryPoint::Enable => "glEnable",
            EntryPoint::Clear => "glClear",
            EntryPoint::ClearColor => "glClearColor",
            EntryPoint::DrawArrays => "glDrawArrays",
            EntryPoint::GenVertexArrays => "glGenVertexArrays",
            EntryPoint::BindVertexArray => "glBindVertexArray",
            EntryPoint::EnableVertexAttribArray => "glEnableVertexAttribArray",
            EntryPoint::VertexAttribPointer => "glVertexAttribPointer",
            EntryPoint::DeleteVertexArrays => "glDeleteVertexArrays",
            EntryPoint::GenBuffers => "glGenBuffers",
            EntryPoint::BindBuffer => "glBindBuffer",
            EntryPoint::BufferData => "glBufferData",
            EntryPoint::DeleteBuffer => "glDeleteBuffer",
            EntryPoint::CreateShader => "glCreateShader",
            EntryPoint::ShaderSource => "glShaderSource",
            EntryPoint::CompileShader => "glCompileShader",
            EntryPoint::DeleteShader => "glDeleteShader",
            EntryPoint::CreateProgram => "glCreateProgram",
            EntryPoint::AttachShader => "glAttachShader",
            EntryPoint::LinkProgram => "glLinkProgram",
            EntryPoint::UseProgram => "glUseProgram",
            EntryPoint::DetachShader => "glDetachShader",
            EntryPoint::DeleteProgram => "glDeleteProgram",
        }
    }
}

/// Whether `name` is the exported name of some required entry point.
pub open spec fn is_required_name(name: Seq<char>) -> bool {
    exists|e: EntryPoint| e.spec_name() == name
}

/// Whether the caller-supplied lookup function can return `addr` when asked
/// for the symbol named `name`. The lookup function is opaque to this layer,
/// so this speaks only of its possible outcomes.
pub open spec fn loader_yields<F: Fn(&'static str) -> usize>(
    loader: F,
    name: Seq<char>,
    addr: usize,
) -> bool {
    exists|s: &'static str| s@ == name && call_ensures(loader, (s,), addr)
}

/// A shader object handle. Zero is the "no shader" sentinel.
#[derive(Copy, Clone, Eq, PartialEq, Structural, Debug)]
pub struct Shader(GLuint);

impl View for Shader {
    type V = GLuint;

    closed spec fn view(&self) -> GLuint {
        self.0
    }
}

impl Shader {
    /// The native "no object" sentinel value, common to every handle kind.
    pub const NONE: GLuint = 0;

    /// The "no shader" sentinel handle.
    pub fn none() -> (r: Shader)
        ensures
            r@ == Shader::NONE,
    {
        Shader(0)
    }

    /// Wraps a raw handle value the driver issued.
    pub fn from_raw(raw: GLuint) -> (r: Shader)
        ensures
            r@ == raw,
    {
        Shader(raw)
    }

    /// The raw handle value as the native ABI carries it.
    pub fn raw(self) -> (r: GLuint)
        ensures
            r == self@,
    {
        self.0
    }
}

/// A program object handle. Zero is the "no program" sentinel.
#[derive(Copy, Clone, Eq, PartialEq, Structural, Debug)]
pub struct Program(GLuint);

impl View for Program {
    type V = GLuint;

    closed spec fn view(&self) -> GLuint {
        self.0
    }
}

impl Program {
    /// The native "no object" sentinel value, common to every handle kind.
    pub const NONE: GLuint = 0;

    /// The "no program" sentinel handle.
    pub fn none() -> (r: Program)
        ensures
            r@ == Program::NONE,
    {
        Program(0)
    }

    /// Wraps a raw handle value the driver issued.
    pub fn from_raw(raw: GLuint) -> (r: Program)
        ensures
            r@ == raw,
    {
        Program(raw)
    }

    /// The raw handle value as the native ABI carries it.
    pub fn raw(self) -> (r: GLuint)
        ensures
            r == self@,
    {
        self.0
    }
}

/// A vertex-array object handle. Zero is the "no vertex array" sentinel.
#[derive(Copy, Clone, Eq, PartialEq, Structural, Debug)]
pub struct VertexArray(GLuint);

impl View for VertexArray {
    type V = GLuint;

    closed spec fn view(&self) -> GLuint {
        self.0
    }
}

impl VertexArray {
    /// The native "no object" sentinel value, common to every handle kind.
    pub const NONE: GLuint = 0;

    /// The "no vertex array" sentinel handle.
    pub fn none() -> (r: VertexArray)
        ensures
            r@ == VertexArray::NONE,
    {
        VertexArray(0)
    }

    /// Wraps a raw handle value the driver issued.
    pub fn from_raw(raw: GLuint) -> (r: VertexArray)
        ensures
            r@ == raw,
    {
        VertexArray(raw)
    }

    /// The raw handle value as the native ABI carries it.
    pub fn raw(self) -> (r: GLuint)
        ensures
            r == self@,
    {
        self.0
    }
}

/// A buffer object handle. Zero is the "no buffer" sentinel.
#[derive(Copy, Clone, Eq, PartialEq, Structural, Debug)]
pub struct Buffer(GLuint);

impl View for Buffer {
    type V = GLuint;

    closed spec fn view(&self) -> GLuint {
        self.0
    }
}

impl Buffer {
    /// The native "no object" sentinel value, common to every handle kind.
    pub const NONE: GLuint = 0;

    /// The "no buffer" sentinel handle.
    pub fn none() -> (r: Buffer)
        ensures
            r@ == Buffer::NONE,
    {
        Buffer(0)
    }

    /// Wraps a raw handle value the driver issued.
    pub fn from_raw(raw: GLuint) -> (r: Buffer)
        ensures
            r@ == raw,
    {
        Buffer(raw)
    }

    /// The raw handle value as the native ABI carries it.
    pub fn raw(self) -> (r: GLuint)
        ensures
            r == self@,
    {
        self.0
    }
}

/// A context capability that can be switched on, such as debug output.
#[derive(Copy, Clone, Eq, PartialEq, Structural, Debug)]
pub struct Capability(GLenum);

impl View for Capability {
    type V = GLenum;

    closed spec fn view(&self) -> GLenum {
        self.0
    }
}

impl Capability {
    pub const DEBUG_OUTPUT: GLenum = 0x92E0;

    /// The capability gating driver debug-message reporting.
    pub fn debug_output() -> (r: Capability)
        ensures
            r@ == Capability::DEBUG_OUTPUT,
    {
        Capability(0x92E0)
    }

    /// The raw enumerant code as the native ABI carries it.
    pub fn raw(self) -> (r: GLenum)
        ensures
            r == self@,
    {
        self.0
    }
}

/// A binding target for buffer objects.
#[derive(Copy, Clone, Eq, PartialEq, Structural, Debug)]
pub struct BufferTarget(GLenum);

impl View for BufferTarget {
    type V = GLenum;

    closed spec fn view(&self) -> GLenum {
        self.0
    }
}

impl BufferTarget {
    pub const ARRAY_BUFFER: GLenum = 0x8892;

    pub const COPY_READ_BUFFER: GLenum = 0x8F36;

    pub const COPY_WRITE_BUFFER: GLenum = 0x8F37;

    pub const ELEMENT_ARRAY_BUFFER: GLenum = 0x8893;

    pub const UNIFORM_BUFFER: GLenum = 0x8A11;

    pub const TEXTURE_BUFFER: GLenum = 0x8C2A;

    pub const SHADER_STORAGE_BUFFER: GLenum = 0x90D2;

    pub fn array_buffer() -> (r: BufferTarget)
        ensures
            r@ == BufferTarget::ARRAY_BUFFER,
    {
        BufferTarget(0x8892)
    }

    pub fn copy_read_buffer() -> (r: BufferTarget)
        ensures
            r@ == BufferTarget::COPY_READ_BUFFER,
    {
        BufferTarget(0x8F36)
    }

    pub fn copy_write_buffer() -> (r: BufferTarget)
        ensures
            r@ == BufferTarget::COPY_WRITE_BUFFER,
    {
        BufferTarget(0x8F37)
    }

    pub fn element_array_buffer() -> (r: BufferTarget)
        ensures
            r@ == BufferTarget::ELEMENT_ARRAY_BUFFER,
    {
        BufferTarget(0x8893)
    }

    pub fn uniform_buffer() -> (r: BufferTarget)
        ensures
            r@ == BufferTarget::UNIFORM_BUFFER,
    {
        BufferTarget(0x8A11)
    }

    pub fn texture_buffer() -> (r: BufferTarget)
        ensures
            r@ == BufferTarget::TEXTURE_BUFFER,
    {
        BufferTarget(0x8C2A)
    }

    pub fn shader_storage_buffer() -> (r: BufferTarget)
        ensures
            r@ == BufferTarget::SHADER_STORAGE_BUFFER,
    {
        BufferTarget(0x90D2)
    }

    /// The raw enumerant code as the native ABI carries it.
    pub fn raw(self) -> (r: GLenum)
        ensures
            r == self@,
    {
        self.0
    }
}

/// A usage hint for buffer data uploads.
#[derive(Copy, Clone, Eq, PartialEq, Structural, Debug)]
pub struct BufferUsage(GLenum);

impl View for BufferUsage {
    type V = GLenum;

    closed spec fn view(&self) -> GLenum {
        self.0
    }
}

impl BufferUsage {
    pub const STREAM_DRAW: GLenum = 0x88E0;

    pub const STREAM_READ: GLenum = 0x88E1;

    pub const STREAM_COPY: GLenum = 0x88E2;

    pub const STATIC_DRAW: GLenum = 0x88E4;

    pub const STATIC_READ: GLenum = 0x88E5;

    pub const STATIC_COPY: GLenum = 0x88E6;

    pub const DYNAMIC_DRAW: GLenum = 0x88E8;

    pub const DYNAMIC_READ: GLenum = 0x88E9;

    pub const DYNAMIC_COPY: GLenum = 0x88EA;

    pub fn stream_draw() -> (r: BufferUsage)
        ensures
            r@ == BufferUsage::STREAM_DRAW,
    {
        BufferUsage(0x88E0)
    }

    pub fn stream_read() -> (r: BufferUsage)
        ensures
            r@ == BufferUsage::STREAM_READ,
    {
        BufferUsage(0x88E1)
    }

    pub fn stream_copy() -> (r: BufferUsage)
        ensures
            r@ == BufferUsage::STREAM_COPY,
    {
        BufferUsage(0x88E2)
    }

    pub fn static_draw() -> (r: BufferUsage)
        ensures
            r@ == BufferUsage::STATIC_DRAW,
    {
        BufferUsage(0x88E4)
    }

    pub fn static_read() -> (r: BufferUsage)
        ensures
            r@ == BufferUsage::STATIC_READ,
    {
        BufferUsage(0x88E5)
    }

    pub fn static_copy() -> (r: BufferUsage)
        ensures
            r@ == BufferUsage::STATIC_COPY,
    {
        BufferUsage(0x88E6)
    }

    pub fn dynamic_draw() -> (r: BufferUsage)
        ensures
            r@ == BufferUsage::DYNAMIC_DRAW,
    {
        BufferUsage(0x88E8)
    }

    pub fn dynamic_read() -> (r: BufferUsage)
        ensures
            r@ == BufferUsage::DYNAMIC_READ,
    {
        BufferUsage(0x88E9)
    }

    pub fn dynamic_copy() -> (r: BufferUsage)
        ensures
            r@ == BufferUsage::DYNAMIC_COPY,
    {
        BufferUsage(0x88EA)
    }

    /// The raw enumerant code as the native ABI carries it.
    pub fn raw(self) -> (r: GLenum)
        ensures
            r == self@,
    {
        self.0
    }
}

/// The element kind of a vertex attribute.
#[derive(Copy, Clone, Eq, PartialEq, Structural, Debug)]
pub struct VertexAttributeKind(GLenum);

impl View for VertexAttributeKind {
    type V = GLenum;

    closed spec fn view(&self) -> GLenum {
        self.0
    }
}

impl VertexAttributeKind {
    pub const BYTE: GLenum = 0x1400;

    pub const UNSIGNED_BYTE: GLenum = 0x1401;

    pub const SHORT: GLenum = 0x1402;

    pub const UNSIGNED_SHORT: GLenum = 0x1403;

    pub const INT: GLenum = 0x1404;

    pub const UNSIGNED_INT: GLenum = 0x1405;

    pub const FLOAT: GLenum = 0x1406;

    pub fn byte() -> (r: VertexAttributeKind)
        ensures
            r@ == VertexAttributeKind::BYTE,
    {
        VertexAttributeKind(0x1400)
    }

    pub fn unsigned_byte() -> (r: VertexAttributeKind)
        ensures
            r@ == VertexAttributeKind::UNSIGNED_BYTE,
    {
        VertexAttributeKind(0x1401)
    }

    pub fn short() -> (r: VertexAttributeKind)
        ensures
            r@ == VertexAttributeKind::SHORT,
    {
        VertexAttributeKind(0x1402)
    }

    pub fn unsigned_short() -> (r: VertexAttributeKind)
        ensures
            r@ == VertexAttributeKind::UNSIGNED_SHORT,
    {
        VertexAttributeKind(0x1403)
    }

    pub fn integer() -> (r: VertexAttributeKind)
        ensures
            r@ == VertexAttributeKind::INT,
    {
        VertexAttributeKind(0x1404)
    }

    pub fn unsigned_int() -> (r: VertexAttributeKind)
        ensures
            r@ == VertexAttributeKind::UNSIGNED_INT,
    {
        VertexAttributeKind(0x1405)
    }

    pub fn float() -> (r: VertexAttributeKind)
        ensures
            r@ == VertexAttributeKind::FLOAT,
    {
        VertexAttributeKind(0x1406)
    }

    /// The raw enumerant code as the native ABI carries it.
    pub fn raw(self) -> (r: GLenum)
        ensures
            r == self@,
    {
        self.0
    }
}

/// A bitmask selecting which framebuffer planes a clear operation touches.
/// This is the one bit-flag-composable enumerant domain: named values
/// combine by bitwise OR, and the "all" value is exactly the OR of the
/// three component planes.
#[derive(Copy, Clone, Eq, PartialEq, Structural, Debug)]
pub struct ClearMask(GLbitField);

impl View for ClearMask {
    type V = GLbitField;

    closed spec fn view(&self) -> GLbitField {
        self.0
    }
}

impl ClearMask {
    pub const NONE: GLbitField = 0;

    pub const COLOR: GLbitField = 0x4000;

    pub const DEPTH: GLbitField = 0x100;

    pub const STENCIL: GLbitField = 0x400;

    pub const ALL: GLbitField = ClearMask::COLOR | ClearMask::DEPTH | ClearMask::STENCIL;

    /// The mask selecting no plane.
    pub fn none() -> (r: ClearMask)
        ensures
            r@ == ClearMask::NONE,
    {
        ClearMask(0)
    }

    /// The mask selecting the color planes.
    pub fn color() -> (r: ClearMask)
        ensures
            r@ == ClearMask::COLOR,
    {
        ClearMask(0x4000)
    }

    /// The mask selecting the depth plane.
    pub fn depth() -> (r: ClearMask)
        ensures
            r@ == ClearMask::DEPTH,
    {
        ClearMask(0x100)
    }

    /// The mask selecting the stencil plane.
    pub fn stencil() -> (r: ClearMask)
        ensures
            r@ == ClearMask::STENCIL,
    {
        ClearMask(0x400)
    }

    /// The mask selecting every plane: the bitwise OR of the color, depth
    /// and stencil masks.
    pub fn all() -> (r: ClearMask)
        ensures
            r@ == ClearMask::ALL,
            r@ == ClearMask::COLOR | ClearMask::DEPTH | ClearMask::STENCIL,
    {
        ClearMask(0x4000 | 0x100 | 0x400)
    }

    /// Composes two masks by bitwise OR, the native bitmask semantics of
    /// this domain.
    pub fn combine(self, other: ClearMask) -> (r: ClearMask)
        ensures
            r@ == self@ | other@,
    {
        ClearMask(self.0 | other.0)
    }

    /// The raw bitmask as the native ABI carries it.
    pub fn raw(self) -> (r: GLbitField)
        ensures
            r == self@,
    {
        self.0
    }
}

/// A draw-call primitive topology.
#[derive(Copy, Clone, Eq, PartialEq, Structural, Debug)]
pub struct Primitive(GLenum);

impl View for Primitive {
    type V = GLenum;

    closed spec fn view(&self) -> GLenum {
        self.0
    }
}

impl Primitive {
    pub const TRIANGLES: GLenum = 0x4;

    pub const TRIANGLE_STRIP: GLenum = 0x5;

    pub fn triangles() -> (r: Primitive)
        ensures
            r@ == Primitive::TRIANGLES,
    {
        Primitive(0x4)
    }

    pub fn triangle_strip() -> (r: Primitive)
        ensures
            r@ == Primitive::TRIANGLE_STRIP,
    {
        Primitive(0x5)
    }

    /// The raw enumerant code as the native ABI carries it.
    pub fn raw(self) -> (r: GLenum)
        ensures
            r == self@,
    {
        self.0
    }
}

/// A shader stage kind.
#[derive(Copy, Clone, Eq, PartialEq, Structural, Debug)]
pub struct ShaderKind(GLenum);

impl View for ShaderKind {
    type V = GLenum;

    closed spec fn view(&self) -> GLenum {
        self.0
    }
}

impl ShaderKind {
    pub const FRAGMENT: GLenum = 0x8B30;

    pub const VERTEX: GLenum = 0x8B31;

    pub fn fragment() -> (r: ShaderKind)
        ensures
            r@ == ShaderKind::FRAGMENT,
    {
        ShaderKind(0x8B30)
    }

    pub fn vertex() -> (r: ShaderKind)
        ensures
            r@ == ShaderKind::VERTEX,
    {
        ShaderKind(0x8B31)
    }

    /// The raw enumerant code as the native ABI carries it.
    pub fn raw(self) -> (r: GLenum)
        ensures
            r == self@,
    {
        self.0
    }
}

/// The origin category of a driver debug message. Values arrive from the
/// driver through the debug callback, so any raw code can be wrapped; codes
/// outside the published set describe themselves as unknown.
#[derive(Copy, Clone, Debug, Eq, PartialEq, Structural)]
pub struct DebugSource(GLenum);

impl View for DebugSource {
    type V = GLenum;

    closed spec fn view(&self) -> GLenum {
        self.0
    }
}

impl DebugSource {
    pub const API: GLenum = 0x8246;

    pub const WINDOW_SYSTEM: GLenum = 0x8247;

    pub const SHADER_COMPILER: GLenum = 0x8248;

    pub const THIRD_PARTY: GLenum = 0x8249;

    pub const APPLICATION: GLenum = 0x824A;

    pub const OTHER: GLenum = 0x824B;

    pub fn api() -> (r: DebugSource)
        ensures
            r@ == DebugSource::API,
    {
        DebugSource(0x8246)
    }

    pub fn window_system() -> (r: DebugSource)
        ensures
            r@ == DebugSource::WINDOW_SYSTEM,
    {
        DebugSource(0x8247)
    }

    pub fn shader_compiler() -> (r: DebugSource)
        ensures
            r@ == DebugSource::SHADER_COMPILER,
    {
        DebugSource(0x8248)
    }

    pub fn third_party() -> (r: DebugSource)
        ensures
            r@ == DebugSource::THIRD_PARTY,
    {
        DebugSource(0x8249)
    }

    pub fn application() -> (r: DebugSource)
        ensures
            r@ == DebugSource::APPLICATION,
    {
        DebugSource(0x824A)
    }

    pub fn other() -> (r: DebugSource)
        ensures
            r@ == DebugSource::OTHER,
    {
        DebugSource(0x824B)
    }

    /// Wraps a raw code the driver reported.
    pub fn from_raw(raw: GLenum) -> (r: DebugSource)
        ensures
            r@ == raw,
    {
        DebugSource(raw)
    }

    /// The raw enumerant code as the native ABI carries it.
    pub fn raw(self) -> (r: GLenum)
        ensures
            r == self@,
    {
        self.0
    }

    /// The name a source code describes itself by.
    pub open spec fn spec_describe(code: GLenum) -> Seq<char> {
        if code == DebugSource::API {
            "API"@
        } else if code == DebugSource::WINDOW_SYSTEM {
            "WINDOW_SYSTEM"@
        } else if code == DebugSource::SHADER_COMPILER {
            "SHADER_COMPILER"@
        } else if code == DebugSource::THIRD_PARTY {
            "THIRD_PARTY"@
        } else if code == DebugSource::APPLICATION {
            "APPLICATION"@
        } else if code == DebugSource::OTHER {
            "OTHER"@
        } else {
            "UNKNOWN"@
        }
    }

    /// A human-readable name for the source category; codes outside the
    /// published set read as unknown.
    pub fn describe(self) -> (r: &'static str)
        ensures
            r@ == DebugSource::spec_describe(self@),
    {
        match self.0 {
            0x8246 => "API",
            0x8247 => "WINDOW_SYSTEM",
            0x8248 => "SHADER_COMPILER",
            0x8249 => "THIRD_PARTY",
            0x824A => "APPLICATION",
            0x824B => "OTHER",
            _ => "UNKNOWN",
        }
    }
}

/// The kind category of a driver debug message. Values arrive from the
/// driver through the debug callback, so any raw code can be wrapped; codes
/// outside the published set describe themselves as unknown.
#[derive(Copy, Clone, Debug, Eq, PartialEq, Structural)]
pub struct DebugType(GLenum);

impl View for DebugType {
    type V = GLenum;

    closed spec fn view(&self) -> GLenum {
        self.0
    }
}

impl DebugType {
    pub const ERROR: GLenum = 0x824C;

    pub const DEPRECATED_BEHAVIOUR: GLenum = 0x824D;

    pub const UNDEFINED_BEHAVIOUR: GLenum = 0x824E;

    pub const PORTABILITY: GLenum = 0x824F;

    pub const PERFORMANCE: GLenum = 0x8250;

    pub const OTHER: GLenum = 0x8251;

    pub fn error() -> (r: DebugType)
        ensures
            r@ == DebugType::ERROR,
    {
        DebugType(0x824C)
    }

    pub fn deprecated_behaviour() -> (r: DebugType)
        ensures
            r@ == DebugType::DEPRECATED_BEHAVIOUR,
    {
        DebugType(0x824D)
    }

    pub fn undefined_behaviour() -> (r: DebugType)
        ensures
            r@ == DebugType::UNDEFINED_BEHAVIOUR,
    {
        DebugType(0x824E)
    }

    pub fn portability() -> (r: DebugType)
        ensures
            r@ == DebugType::PORTABILITY,
    {
        DebugType(0x824F)
    }

    pub fn performance() -> (r: DebugType)
        ensures
            r@ == DebugType::PERFORMANCE,
    {
        DebugType(0x8250)
    }

    pub fn other() -> (r: DebugType)
        ensures
            r@ == DebugType::OTHER,
    {
        DebugType(0x8251)
    }

    /// Wraps a raw code the driver reported.
    pub fn from_raw(raw: GLenum) -> (r: DebugType)
        ensures
            r@ == raw,
    {
        DebugType(raw)
    }

    /// The raw enumerant code as the native ABI carries it.
    pub fn raw(self) -> (r: GLenum)
        ensures
            r == self@,
    {
        self.0
    }

    /// The name a message-kind code describes itself by.
    pub open spec fn spec_describe(code: GLenum) -> Seq<char> {
        if code == DebugType::ERROR {
            "ERROR"@
        } else if code == DebugType::DEPRECATED_BEHAVIOUR {
            "DEPRECATED"@
        } else if code == DebugType::UNDEFINED_BEHAVIOUR {
            "UNDEFINED_BEHAVIOUR"@
        } else if code == DebugType::PORTABILITY {
            "PORTABILITY"@
        } else if code == DebugType::PERFORMANCE {
            "PERFORMANCE"@
        } else if code == DebugType::OTHER {
            "OTHER"@
        } else {
            "UNKNOWN"@
        }
    }

    /// A human-readable name for the message kind; codes outside the
    /// published set read as unknown.
    pub fn describe(self) -> (r: &'static str)
        ensures
            r@ == DebugType::spec_describe(self@),
    {
        match self.0 {
            0x824C => "ERROR",
            0x824D => "DEPRECATED",
            0x824E => "UNDEFINED_BEHAVIOUR",
            0x824F => "PORTABILITY",
            0x8250 => "PERFORMANCE",
            0x8251 => "OTHER",
            _ => "UNKNOWN",
        }
    }
}

/// The severity category of a driver debug message. Values arrive from the
/// driver through the debug callback, so any raw code can be wrapped.
#[derive(Copy, Clone, Debug, Eq, PartialEq, Structural)]
pub struct DebugSeverity(GLenum);

impl View for DebugSeverity {
    type V = GLenum;

    closed spec fn view(&self) -> GLenum {
        self.0
    }
}

impl DebugSeverity {
    pub const HIGH: GLenum = 0x9146;

    pub const MEDIUM: GLenum = 0x9147;

    pub const LOW: GLenum = 0x9148;

    pub const NOTIFICATION: GLenum = 0x826B;

    pub fn high() -> (r: DebugSeverity)
        ensures
            r@ == DebugSeverity::HIGH,
    {
        DebugSeverity(0x9146)
    }

    pub fn medium() -> (r: DebugSeverity)
        ensures
            r@ == DebugSeverity::MEDIUM,
    {
        DebugSeverity(0x9147)
    }

    pub fn low() -> (r: DebugSeverity)
        ensures
            r@ == DebugSeverity::LOW,
    {
        DebugSeverity(0x9148)
    }

    pub fn notification() -> (r: DebugSeverity)
        ensures
            r@ == DebugSeverity::NOTIFICATION,
    {
        DebugSeverity(0x826B)
    }

    /// Wraps a raw code the driver reported.
    pub fn from_raw(raw: GLenum) -> (r: DebugSeverity)
        ensures
            r@ == raw,
    {
        DebugSeverity(raw)
    }

    /// The raw enumerant code as the native ABI carries it.
    pub fn raw(self) -> (r: GLenum)
        ensures
            r == self@,
    {
        self.0
    }
}

/// The resolved entry-point table: one non-null native address per required
/// entry point, immutable after construction. Construction is all-or-nothing,
/// so no table with a missing entry ever exists.
///
/// The table holds addresses, not callables: reinterpreting an address as a
/// typed function and calling it cannot be checked here and belongs to the
/// host's dispatch layer, which reads the addresses through [`Api::addr`].
/// The table must not outlive the graphics context whose lookup function
/// produced it — an external invariant the host upholds.
pub struct Api {
    debug_message_callback_addr: usize,
    enable_addr: usize,
    clear_addr: usize,
    clear_color_addr: usize,
    draw_arrays_addr: usize,
    gen_vertex_arrays_addr: usize,
    bind_vertex_array_addr: usize,
    enable_vertex_attrib_array_addr: usize,
    vertex_attrib_pointer_addr: usize,
    delete_vertex_arrays_addr: usize,
    gen_buffers_addr: usize,
    bind_buffer_addr: usize,
    buffer_data_addr: usize,
    delete_buffer_addr: usize,
    create_shader_addr: usize,
    shader_source_addr: usize,
    compile_shader_addr: usize,
    delete_shader_addr: usize,
    create_program_addr: usize,
    attach_shader_addr: usize,
    link_program_addr: usize,
    use_program_addr: usize,
    detach_shader_addr: usize,
    delete_program_addr: usize,
}

/// Everything construction promises of its result: on success a
/// well-formed table whose every entry the loader did return for that
/// entry's name; on failure the name of a required symbol for which the
/// loader did return the null address.
pub open spec fn construction_post<F: Fn(&'static str) -> usize>(
    loader: F,
    r: Result<Api, Error>,
) -> bool {
    match r {
        Ok(api) => api.loaded_from(loader),
        Err(e) => match e {
            Error::FailedToLoad(s) => is_required_name(s@) && loader_yields(loader, s@, 0),
        },
    }
}

impl Api {
    /// The resolved address of one entry point, as spec-level data.
    pub closed spec fn addr_of(self, e: EntryPoint) -> usize {
        match e {
            EntryPoint::DebugMessageCallback => self.debug_message_callback_addr,
            EntryPoint::Enable => self.enable_addr,
            EntryPoint::Clear => self.clear_addr,
            EntryPoint::ClearColor => self.clear_color_addr,
            EntryPoint::DrawArrays => self.draw_arrays_addr,
            EntryPoint::GenVertexArrays => self.gen_vertex_arrays_addr,
            EntryPoint::BindVertexArray => self.bind_vertex_array_addr,
            EntryPoint::EnableVertexAttribArray => self.enable_vertex_attrib_array_addr,
            EntryPoint::VertexAttribPointer => self.vertex_attrib_pointer_addr,
            EntryPoint::DeleteVertexArrays => self.delete_vertex_arrays_addr,
            EntryPoint::GenBuffers => self.gen_buffers_addr,
            EntryPoint::BindBuffer => self.bind_buffer_addr,
            EntryPoint::BufferData => self.buffer_data_addr,
            EntryPoint::DeleteBuffer => self.delete_buffer_addr,
            EntryPoint::CreateShader => self.create_shader_addr,
            EntryPoint::ShaderSource => self.shader_source_addr,
            EntryPoint::CompileShader => self.compile_shader_addr,
            EntryPoint::DeleteShader => self.delete_shader_addr,
            EntryPoint::CreateProgram => self.create_program_addr,
            EntryPoint::AttachShader => self.attach_shader_addr,
            EntryPoint::LinkProgram => self.link_program_addr,
            EntryPoint::UseProgram => self.use_program_addr,
            EntryPoint::DetachShader => self.detach_shader_addr,
            EntryPoint::DeleteProgram => self.delete_program_addr,
        }
    }

    /// Well-formedness: no entry of the table is the null address. This is
    /// a type invariant — construction establishes it, so every table that
    /// exists answers every entry point with a non-null address.
    #[verifier::type_invariant]
    pub open spec fn wf(self) -> bool {
        forall|e: EntryPoint| self.addr_of(e) != 0
    }

    /// Whether this table is a faithful result of resolving every required
    /// entry point through `loader`: well-formed, and each entry an address
    /// that `loader` did return for that entry's symbol name.
    pub open spec fn loaded_from<F: Fn(&'static str) -> usize>(self, loader: F) -> bool {
        self.wf() && forall|e: EntryPoint|
            #[trigger] loader_yields(loader, e.spec_name(), self.addr_of(e))
    }

    /// Resolves every required entry point through the caller-supplied
    /// lookup function, in one pass, failing on the first symbol whose
    /// address comes back null and never returning a partial table.
    pub fn with_loader<F: Fn(&'static str) -> usize>(loader: &F) -> (r: Result<Api, Error>)
        requires
            forall|s: &'static str| call_requires(*loader, (s,)),
        ensures
            construction_post(*loader, r),
    {
        let debug_message_callback_addr = resolve_entry(
            loader,
            EntryPoint::DebugMessageCallback,
        )?;
        let enable_addr = resolve_entry(loader, EntryPoint::Enable)?;
        let clear_addr = resolve_entry(loader, EntryPoint::Clear)?;
        let clear_color_addr = resolve_entry(loader, EntryPoint::ClearColor)?;
        let draw_arrays_addr = resolve_entry(loader, EntryPoint::DrawArrays)?;
        let gen_vertex_arrays_addr = resolve_entry(loader, EntryPoint::GenVertexArrays)?;
        let bind_vertex_array_addr = resolve_entry(loader, EntryPoint::BindVertexArray)?;
        let enable_vertex_attrib_array_addr = resolve_entry(
            loader,
            EntryPoint::EnableVertexAttribArray,
        )?;
        let vertex_attrib_pointer_addr = resolve_entry(loader, EntryPoint::VertexAttribPointer)?;
        let delete_vertex_arrays_addr = resolve_entry(loader, EntryPoint::DeleteVertexArrays)?;
        let gen_buffers_addr = resolve_entry(loader, EntryPoint::GenBuffers)?;
        let bind_buffer_addr = resolve_entry(loader, EntryPoint::BindBuffer)?;
        let buffer_data_addr = resolve_entry(loader, EntryPoint::BufferData)?;
        let delete_buffer_addr = resolve_entry(loader, EntryPoint::DeleteBuffer)?;
        let create_shader_addr = resolve_entry(loader, EntryPoint::CreateShader)?;
        let shader_source_addr = resolve_entry(loader, EntryPoint::ShaderSource)?;
        let compile_shader_addr = resolve_entry(loader, EntryPoint::CompileShader)?;
        let delete_shader_addr = resolve_entry(loader, EntryPoint::DeleteShader)?;
        let create_program_addr = resolve_entry(loader, EntryPoint::CreateProgram)?;
        let attach_shader_addr = resolve_entry(loader, EntryPoint::AttachShader)?;
        let link_program_addr = resolve_entry(loader, EntryPoint::LinkProgram)?;
        let use_program_addr = resolve_entry(loader, EntryPoint::UseProgram)?;
        let detach_shader_addr = resolve_entry(loader, EntryPoint::DetachShader)?;
        let delete_program_addr = resolve_entry(loader, EntryPoint::DeleteProgram)?;
        let api = Api {
            debug_message_callback_addr,
            enable_addr,
            clear_addr,
            clear_color_addr,
            draw_arrays_addr,
            gen_vertex_arrays_addr,
            bind_vertex_array_addr,
            enable_vertex_attrib_array_addr,
            vertex_attrib_pointer_addr,
            delete_vertex_arrays_addr,
            gen_buffers_addr,
            bind_buffer_addr,
            buffer_data_addr,
            delete_buffer_addr,
            create_shader_addr,
            shader_source_addr,
            compile_shader_addr,
            delete_shader_addr,
            create_program_addr,
            attach_shader_addr,
            link_program_addr,
            use_program_addr,
            detach_shader_addr,
            delete_program_addr,
        };
        proof {
            assert forall|e: EntryPoint|
                api.addr_of(e) != 0 && #[trigger] loader_yields(
                    *loader,
                    e.spec_name(),
                    api.addr_of(e),
                ) by {
                match e {
                    EntryPoint::DebugMessageCallback => {},
                    EntryPoint::Enable => {},
                    EntryPoint::Clear => {},
                    EntryPoint::ClearColor => {},
                    EntryPoint::DrawArrays => {},
                    EntryPoint::GenVertexArrays => {},
                    EntryPoint::BindVertexArray => {},
                    EntryPoint::EnableVertexAttribArray => {},
                    EntryPoint::VertexAttribPointer => {},
                    EntryPoint::DeleteVertexArrays => {},
                    EntryPoint::GenBuffers => {},
                    EntryPoint::BindBuffer => {},
                    EntryPoint::BufferData => {},
                    EntryPoint::DeleteBuffer => {},
                    EntryPoint::CreateShader => {},
                    EntryPoint::ShaderSource => {},
                    EntryPoint::CompileShader => {},
                    EntryPoint::DeleteShader => {},
                    EntryPoint::CreateProgram => {},
                    EntryPoint::AttachShader => {},
                    EntryPoint::LinkProgram => {},
                    EntryPoint::UseProgram => {},
                    EntryPoint::DetachShader => {},
                    EntryPoint::DeleteProgram => {},
                }
            }
        }
        Ok(api)
    }

    /// The resolved, non-null native address of one entry point. The host's
    /// dispatch layer reads every typed callable from here; reinterpreting
    /// the address as a function of the matching native signature is the
    /// caller's unchecked obligation.
    pub fn addr(&self, e: EntryPoint) -> (r: usize)
        ensures
            r == self.addr_of(e),
            r != 0,
    {
        proof {
            use_type_invariant(&*self);
            assert(self.addr_of(e) != 0);
        }
        match e {
            EntryPoint::DebugMessageCallback => self.debug_message_callback_addr,
            EntryPoint::Enable => self.enable_addr,
            EntryPoint::Clear => self.clear_addr,
            EntryPoint::ClearColor => self.clear_color_addr,
            EntryPoint::DrawArrays => self.draw_arrays_addr,
            EntryPoint::GenVertexArrays => self.gen_vertex_arrays_addr,
            EntryPoint::BindVertexArray => self.bind_vertex_array_addr,
            EntryPoint::EnableVertexAttribArray => self.enable_vertex_attrib_array_addr,
            EntryPoint::VertexAttribPointer => self.vertex_attrib_pointer_addr,
            EntryPoint::DeleteVertexArrays => self.delete_vertex_arrays_addr,
            EntryPoint::GenBuffers => self.gen_buffers_addr,
            EntryPoint::BindBuffer => self.bind_buffer_addr,
            EntryPoint::BufferData => self.buffer_data_addr,
            EntryPoint::DeleteBuffer => self.delete_buffer_addr,
            EntryPoint::CreateShader => self.create_shader_addr,
            EntryPoint::ShaderSource => self.shader_source_addr,
            EntryPoint::CompileShader => self.compile_shader_addr,
            EntryPoint::DeleteShader => self.delete_shader_addr,
            EntryPoint::CreateProgram => self.create_program_addr,
            EntryPoint::AttachShader => self.attach_shader_addr,
            EntryPoint::LinkProgram => self.link_program_addr,
            EntryPoint::UseProgram => self.use_program_addr,
            EntryPoint::DetachShader => self.detach_shader_addr,
            EntryPoint::DeleteProgram => self.delete_program_addr,
        }
    }
}

/// Resolves the symbol of one required entry point, tying the outcome to
/// that entry's name.
fn resolve_entry<F: Fn(&'static str) -> usize>(loader: &F, e: EntryPoint) -> (r: Result<
    usize,
    Error,
>)
    requires
        forall|s: &'static str| call_requires(*loader, (s,)),
    ensures
        match r {
            Ok(addr) => addr != 0 && loader_yields(*loader, e.spec_name(), addr),
            Err(err) => match err {
                Error::FailedToLoad(s) => s@ == e.spec_name() && is_required_name(s@)
                    && loader_yields(*loader, e.spec_name(), 0),
            },
        },
{
    let symbol = e.name();
    let r = resolve(loader, symbol);
    proof {
        match r {
            Ok(addr) => {
                assert(symbol@ == e.spec_name() && call_ensures(*loader, (symbol,), addr));
            },
            Err(_) => {
                assert(symbol@ == e.spec_name() && call_ensures(*loader, (symbol,), 0usize));
            },
        }
    }
    r
}

/// Law: the clear-mask "all" value is exactly the bitwise OR of its three
/// named component planes.
pub proof fn clear_mask_all_is_component_or()
    ensures
        ClearMask::ALL == ClearMask::COLOR | ClearMask::DEPTH | ClearMask::STENCIL,
{
}

/// Law: the "none" sentinel of every handle kind is the native zero value.
pub proof fn none_handles_are_zero()
    ensures
        Shader::NONE == 0,
        Program::NONE == 0,
        VertexArray::NONE == 0,
        Buffer::NONE == 0,
{
}

/// Law: if the lookup function cannot return the null address for any
/// required symbol, construction cannot fail — a surface with every
/// operation's address resolved is returned.
pub proof fn construction_succeeds_when_all_resolve<F: Fn(&'static str) -> usize>(
    loader: F,
    r: Result<Api, Error>,
)
    requires
        construction_post(loader, r),
        forall|s: &'static str, a: usize|
            is_required_name(s@) && #[trigger] call_ensures(loader, (s,), a) ==> a != 0,
    ensures
        r is Ok,
{
    match r {
        Ok(_) => {},
        Err(e) => {
            match e {
                Error::FailedToLoad(s) => {
                    let s2 = choose|s2: &'static str|
                        s2@ == s@ && call_ensures(loader, (s2,), 0usize);
                    assert(is_required_name(s2@));
                    assert(call_ensures(loader, (s2,), 0usize));
                    assert(false);
                },
            }
        },
    }
}

/// Law: when the lookup function can answer one required symbol only with
/// the null address and never answers any other required symbol with null,
/// construction fails and reports exactly that symbol — whatever order the
/// symbols were resolved in.
pub proof fn failure_reports_the_missing_symbol<F: Fn(&'static str) -> usize>(
    loader: F,
    r: Result<Api, Error>,
    missing: Seq<char>,
)
    requires
        construction_post(loader, r),
        is_required_name(missing),
        forall|s: &'static str, a: usize|
            s@ == missing && #[trigger] call_ensures(loader, (s,), a) ==> a == 0,
        forall|s: &'static str, a: usize|
            is_required_name(s@) && s@ != missing && #[trigger] call_ensures(loader, (s,), a)
                ==> a != 0,
    ensures
        r matches Err(Error::FailedToLoad(s)) && s@ == missing,
{
    match r {
        Ok(api) => {
            let e = choose|e: EntryPoint| e.spec_name() == missing;
            assert(loader_yields(loader, e.spec_name(), api.addr_of(e)));
            let s2 = choose|s2: &'static str|
                s2@ == missing && call_ensures(loader, (s2,), api.addr_of(e));
            assert(call_ensures(loader, (s2,), api.addr_of(e)));
            assert(false);
        },
        Err(err) => {
            match err {
                Error::FailedToLoad(s) => {
                    let s2 = choose|s2: &'static str|
                        s2@ == s@ && call_ensures(loader, (s2,), 0usize);
                    if s@ != missing {
                        assert(is_required_name(s2@));
                        assert(call_ensures(loader, (s2,), 0usize));
                        assert(false);
                    }
                },
            }
        },
    }
}

} // verus!
