use vstd::prelude::*;
use crate::error::GlError;

verus! {

pub const GL_DEPTH_BUFFER_BIT: u32 = 0x0000_0100;
pub const GL_COLOR_BUFFER_BIT: u32 = 0x0000_4000;
pub const GL_SRC_ALPHA: u32 = 0x0302;
pub const GL_ONE_MINUS_SRC_ALPHA: u32 = 0x0303;
pub const GL_DST_ALPHA: u32 = 0x0304;
pub const GL_ARRAY_BUFFER: u32 = 0x8892;
pub const GL_ELEMENT_ARRAY_BUFFER: u32 = 0x8893;
pub const GL_DYNAMIC_DRAW: u32 = 0x88E8;
pub const GL_TRIANGLES: u32 = 0x0004;
pub const GL_UNSIGNED_BYTE: u32 = 0x1401;
pub const GL_UNSIGNED_INT: u32 = 0x1405;
pub const GL_FLOAT: u32 = 0x1406;
pub const GL_RGBA: u32 = 0x1908;
pub const GL_TEXTURE_2D: u32 = 0x0DE1;
pub const GL_TEXTURE_MAG_FILTER: u32 = 0x2800;
pub const GL_TEXTURE_MIN_FILTER: u32 = 0x2801;
pub const GL_NEAREST: i32 = 0x2600;
pub const GL_FRAGMENT_SHADER: u32 = 0x8B30;
pub const GL_VERTEX_SHADER: u32 = 0x8B31;
pub const GL_COMPILE_STATUS: u32 = 0x8B81;
pub const GL_INFO_LOG_LENGTH: u32 = 0x8B84;

/// The largest value of the driver's signed size type.
pub const GL_SIZEI_MAX: u32 = 0x7fff_ffff;

/// A texture name handed out by the driver.
#[derive(Clone, Copy, Debug, PartialEq, Eq, Structural)]
pub struct Texture(pub u32);

/// An attribute location of a linked program.
#[derive(Clone, Copy, Debug, PartialEq, Eq, Structural)]
pub struct Attribute(pub i32);

/// One call into the rendering library, with every argument that is a plain
/// value. Data that lives in the caller's memory (a shader's source text, a
/// uniform's name, a buffer's or a texture's contents, a matrix) is passed
/// along with the call by whoever executes it.
#[derive(Clone, Copy, Debug, PartialEq, Eq, Structural)]
pub enum Call {
    Clear { mask: u32 },
    Enable { cap: u32 },
    Disable { cap: u32 },
    BlendFuncSeparate { src_rgb: u32, dst_rgb: u32, src_alpha: u32, dst_alpha: u32 },
    CreateShader { kind: u32 },
    ShaderSource { shader: u32 },
    CompileShader { shader: u32 },
    GetShaderiv { shader: u32, pname: u32 },
    GetShaderInfoLog { shader: u32, max_len: i32 },
    CreateProgram,
    AttachShader { program: u32, shader: u32 },
    LinkProgram { program: u32 },
    GetUniformLocation { program: u32 },
    GetAttribLocation { program: u32 },
    EnableVertexAttribArray { index: u32 },
    GenBuffers { n: i32 },
    BindBuffer { target: u32, buffer: u32 },
    BufferData { target: u32, size: usize, usage: u32 },
    UseProgram { program: u32 },
    UniformMatrix4fv { location: i32, count: i32, transpose: bool },
    DrawElements { mode: u32, count: i32, index_type: u32 },
    GenTextures { n: i32 },
    BindTexture { target: u32, texture: u32 },
    TexParameteri { target: u32, pname: u32, param: i32 },
    TexImage2D { target: u32, level: i32, internal_format: i32, width: i32, height: i32, format: u32, pixel_type: u32 },
    VertexAttribPointer { index: u32, components: i32, data_type: u32, normalized: bool, stride: i32 },
    Viewport { x: i32, y: i32, width: i32, height: i32 },
}

/// Clears colour and depth with the configured clear colour.
pub fn clear() -> (r: Call)
    ensures
        r == (Call::Clear { mask: GL_COLOR_BUFFER_BIT | GL_DEPTH_BUFFER_BIT }),
{
    Call::Clear { mask: GL_COLOR_BUFFER_BIT | GL_DEPTH_BUFFER_BIT }
}

/// Turns on the capability `what`.
pub fn enable(what: u32) -> (r: Call)
    ensures
        r == (Call::Enable { cap: what }),
{
    Call::Enable { cap: what }
}

/// Turns off the capability `what`.
pub fn disable(what: u32) -> (r: Call)
    ensures
        r == (Call::Disable { cap: what }),
{
    Call::Disable { cap: what }
}

/// Straight alpha blending, with a destination-alpha term for alpha.
pub fn blend() -> (r: Call)
    ensures
        r == (Call::BlendFuncSeparate {
            src_rgb: GL_SRC_ALPHA,
            dst_rgb: GL_ONE_MINUS_SRC_ALPHA,
            src_alpha: GL_SRC_ALPHA,
            dst_alpha: GL_DST_ALPHA,
        }),
{
    Call::BlendFuncSeparate {
        src_rgb: GL_SRC_ALPHA,
        dst_rgb: GL_ONE_MINUS_SRC_ALPHA,
        src_alpha: GL_SRC_ALPHA,
        dst_alpha: GL_DST_ALPHA,
    }
}

/// The target that a buffer is bound to: the index target or the vertex one.
pub open spec fn target_of(is_index_buffer: bool) -> u32 {
    if is_index_buffer {
        GL_ELEMENT_ARRAY_BUFFER
    } else {
        GL_ARRAY_BUFFER
    }
}

pub fn buffer_target(is_index_buffer: bool) -> (r: u32)
    ensures
        r == target_of(is_index_buffer),
{
    if is_index_buffer {
        GL_ELEMENT_ARRAY_BUFFER
    } else {
        GL_ARRAY_BUFFER
    }
}

/// Binds `buffer` to the index or the vertex target.
pub fn bind_buffer(is_index_buffer: bool, buffer: u32) -> (r: Call)
    ensures
        r == (Call::BindBuffer { target: target_of(is_index_buffer), buffer }),
{
    Call::BindBuffer { target: buffer_target(is_index_buffer), buffer }
}

/// Fills the bound buffer with `len` elements of `element_size` bytes each,
/// for frequent update.
pub fn set_buffer(is_index_buffer: bool, len: usize, element_size: usize) -> (r: Call)
    requires
        len * element_size <= isize::MAX,
    ensures
        r == (Call::BufferData {
            target: target_of(is_index_buffer),
            size: (len * element_size) as usize,
            usage: GL_DYNAMIC_DRAW,
        }),
{
    Call::BufferData {
        target: buffer_target(is_index_buffer),
        size: len * element_size,
        usage: GL_DYNAMIC_DRAW,
    }
}

/// Makes `program` current.
pub fn use_program(program: u32) -> (r: Call)
    ensures
        r == (Call::UseProgram { program }),
{
    Call::UseProgram { program }
}

/// Sets the 4x4 matrix uniform at `location`, not transposed.
pub fn set_mat4(location: i32) -> (r: Call)
    ensures
        r == (Call::UniformMatrix4fv { location, count: 1, transpose: false }),
{
    Call::UniformMatrix4fv { location, count: 1, transpose: false }
}

/// Draws `n_indices` 32-bit indices from offset zero as a triangle list. A
/// count that the driver's signed size cannot hold is an invalid value.
pub fn draw_elements(n_indices: u32) -> (r: Result<Call, GlError>)
    ensures
        r is Err <==> n_indices > GL_SIZEI_MAX,
        r is Err ==> r == Err::<Call, GlError>(GlError::InvalidValue),
        r matches Ok(c) ==> c == (Call::DrawElements {
            mode: GL_TRIANGLES,
            count: n_indices as i32,
            index_type: GL_UNSIGNED_INT,
        }),
{
    if n_indices > GL_SIZEI_MAX {
        return Err(GlError::InvalidValue);
    }
    Ok(Call::DrawElements { mode: GL_TRIANGLES, count: n_indices as i32, index_type: GL_UNSIGNED_INT })
}

/// Asks for `n` buffer names in one call. A count that the driver's signed
/// size cannot hold is an invalid value.
pub fn new_buffers(n: usize) -> (r: Result<Call, GlError>)
    ensures
        r is Err <==> n > GL_SIZEI_MAX,
        r is Err ==> r == Err::<Call, GlError>(GlError::InvalidValue),
        r matches Ok(c) ==> c == (Call::GenBuffers { n: n as i32 }),
{
    if n > GL_SIZEI_MAX as usize {
        return Err(GlError::InvalidValue);
    }
    Ok(Call::GenBuffers { n: n as i32 })
}

/// Asks for one texture name.
pub fn gen_texture() -> (r: Call)
    ensures
        r == (Call::GenTextures { n: 1 }),
{
    Call::GenTextures { n: 1 }
}

/// Binds `texture` to the 2D target.
pub fn use_texture(texture: &Texture) -> (r: Call)
    ensures
        r == (Call::BindTexture { target: GL_TEXTURE_2D, texture: texture.0 }),
{
    Call::BindTexture { target: GL_TEXTURE_2D, texture: texture.0 }
}

/// What follows the creation of the texture named `name`: bind it, then
/// nearest-neighbour filtering for minification and for magnification.
pub open spec fn texture_setup(name: u32) -> Seq<Call> {
    seq![
        Call::BindTexture { target: GL_TEXTURE_2D, texture: name },
        Call::TexParameteri { target: GL_TEXTURE_2D, pname: GL_TEXTURE_MIN_FILTER, param: GL_NEAREST },
        Call::TexParameteri { target: GL_TEXTURE_2D, pname: GL_TEXTURE_MAG_FILTER, param: GL_NEAREST },
    ]
}

/// The calls that set up a newly generated texture.
pub fn new_texture(name: u32) -> (r: (Texture, Vec<Call>))
    ensures
        r.0 == Texture(name),
        r.1@ == texture_setup(name),
{
    let t = Texture(name);
    let v = vec![
        use_texture(&t),
        Call::TexParameteri { target: GL_TEXTURE_2D, pname: GL_TEXTURE_MIN_FILTER, param: GL_NEAREST },
        Call::TexParameteri { target: GL_TEXTURE_2D, pname: GL_TEXTURE_MAG_FILTER, param: GL_NEAREST },
    ];
    assert(v@ =~= texture_setup(name));
    (t, v)
}

/// Uploads a `w` by `h` RGBA image of one `u32` per pixel to mip level zero
/// of the bound texture. The image must hold `w * h` pixels and each side
/// must fit the driver's signed size; otherwise it is an invalid value.
pub fn set_texture(w: u32, h: u32, n_pixels: usize) -> (r: Result<Call, GlError>)
    ensures
        r is Err <==> (w > GL_SIZEI_MAX || h > GL_SIZEI_MAX || (n_pixels as int) < (w as int) * (h as int)),
        r is Err ==> r == Err::<Call, GlError>(GlError::InvalidValue),
        r matches Ok(c) ==> c == (Call::TexImage2D {
            target: GL_TEXTURE_2D,
            level: 0,
            internal_format: GL_RGBA as i32,
            width: w as i32,
            height: h as i32,
            format: GL_RGBA,
            pixel_type: GL_UNSIGNED_BYTE,
        }),
{
    if w > GL_SIZEI_MAX || h > GL_SIZEI_MAX {
        return Err(GlError::InvalidValue);
    }
    assert((w as u64) * (h as u64) <= 0x7fff_ffff * 0x7fff_ffff) by (nonlinear_arith)
        requires
            w <= 0x7fff_ffff,
            h <= 0x7fff_ffff,
    ;
    let area: u64 = (w as u64) * (h as u64);
    if (n_pixels as u64) < area {
        return Err(GlError::InvalidValue);
    }
    Ok(Call::TexImage2D {
        target: GL_TEXTURE_2D,
        level: 0,
        internal_format: GL_RGBA as i32,
        width: w as i32,
        height: h as i32,
        format: GL_RGBA,
        pixel_type: GL_UNSIGNED_BYTE,
    })
}

/// Describes the bound buffer to `attrib` as four floats per vertex,
/// tightly packed, not normalised.
pub fn vertex_attrib(attrib: &Attribute) -> (r: Call)
    ensures
        r == (Call::VertexAttribPointer {
            index: attrib.0 as u32,
            components: 4,
            data_type: GL_FLOAT,
            normalized: false,
            stride: 0,
        }),
{
    Call::VertexAttribPointer {
        index: attrib.0 as u32,
        components: 4,
        data_type: GL_FLOAT,
        normalized: false,
        stride: 0,
    }
}

/// The viewport rectangle `(0, 0, w, h)`; a side that the driver's signed
/// size cannot hold is an invalid value.
pub open spec fn viewport_of(w: u32, h: u32) -> Result<Call, GlError> {
    if w > GL_SIZEI_MAX || h > GL_SIZEI_MAX {
        Err(GlError::InvalidValue)
    } else {
        Ok(Call::Viewport { x: 0, y: 0, width: w as i32, height: h as i32 })
    }
}

/// Sets the viewport to `(0, 0, w, h)`.
pub fn viewport(w: u32, h: u32) -> (r: Result<Call, GlError>)
    ensures
        r == viewport_of(w, h),
{
    if w > GL_SIZEI_MAX || h > GL_SIZEI_MAX {
        return Err(GlError::InvalidValue);
    }
    Ok(Call::Viewport { x: 0, y: 0, width: w as i32, height: h as i32 })
}

/// The viewport rectangle that the driver holds after `c`, if it held
/// `prev` before: a viewport call replaces it, any other call keeps it.
pub open spec fn viewport_after(prev: (i32, i32, i32, i32), c: Call) -> (i32, i32, i32, i32) {
    match c {
        Call::Viewport { x, y, width, height } => (x, y, width, height),
        _ => prev,
    }
}

/// Setting the viewport to `(w, h)` twice leaves the driver with the same
/// rectangle as setting it once, `(0, 0, w, h)`, whatever it held before.
pub proof fn lemma_viewport_idempotent(prev: (i32, i32, i32, i32), w: u32, h: u32)
    requires
        viewport_of(w, h) is Ok,
    ensures
        viewport_after(viewport_after(prev, viewport_of(w, h)->Ok_0), viewport_of(w, h)->Ok_0)
            == viewport_after(prev, viewport_of(w, h)->Ok_0),
        viewport_after(prev, viewport_of(w, h)->Ok_0) == (0i32, 0i32, w as i32, h as i32),
{
}

} // verus!
