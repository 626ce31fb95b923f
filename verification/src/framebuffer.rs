//! Bookkeeping for the full-screen textured quad: buffer and viewport sizes,
//! the texture format, and the buffer-size validation that guards uploads.

use vstd::prelude::*;

verus! {

use vstd::string::StringExecFns;

/// The OpenGL data-type constant for signed bytes.
pub const GL_BYTE: u32 = 0x1400;

/// The OpenGL data-type constant for unsigned bytes.
pub const GL_UNSIGNED_BYTE: u32 = 0x1401;

/// The OpenGL pixel-format constant for one red component.
pub const GL_RED: u32 = 0x1903;

/// The OpenGL pixel-format constant for red and green components.
pub const GL_RG: u32 = 0x8227;

/// The OpenGL pixel-format constant for red, green and blue components.
pub const GL_RGB: u32 = 0x1907;

/// The OpenGL pixel-format constant for blue, green and red components.
pub const GL_BGR: u32 = 0x80E0;

/// The OpenGL pixel-format constant for red, green, blue and alpha
/// components.
pub const GL_RGBA: u32 = 0x1908;

/// The OpenGL pixel-format constant for blue, green, red and alpha
/// components.
pub const GL_BGRA: u32 = 0x80E1;

/// The order and number of color components in each pixel of the caller's
/// buffer.
#[derive(Copy, Clone, PartialEq, Eq, Structural, Debug)]
pub enum BufferFormat {
    /// One red component per pixel.
    R,
    /// Red and green components per pixel.
    RG,
    /// Red, green and blue components per pixel.
    RGB,
    /// Blue, green and red components per pixel.
    BGR,
    /// Red, green, blue and alpha components per pixel.
    RGBA,
    /// Blue, green, red and alpha components per pixel.
    BGRA,
}

impl BufferFormat {
    /// The number of color components in each pixel.
    pub open spec fn spec_components(self) -> int {
        match self {
            BufferFormat::R => 1,
            BufferFormat::RG => 2,
            BufferFormat::RGB => 3,
            BufferFormat::BGR => 3,
            BufferFormat::RGBA => 4,
            BufferFormat::BGRA => 4,
        }
    }

    /// The OpenGL pixel-format constant this format stands for.
    pub open spec fn spec_gl_constant(self) -> u32 {
        match self {
            BufferFormat::R => GL_RED,
            BufferFormat::RG => GL_RG,
            BufferFormat::RGB => GL_RGB,
            BufferFormat::BGR => GL_BGR,
            BufferFormat::RGBA => GL_RGBA,
            BufferFormat::BGRA => GL_BGRA,
        }
    }

    /// Returns the number of color components in each pixel.
    pub fn components(&self) -> (n: usize)
        ensures
            n == self.spec_components(),
            1 <= n <= 4,
    {
        match *self {
            BufferFormat::R => 1,
            BufferFormat::RG => 2,
            BufferFormat::RGB => 3,
            BufferFormat::BGR => 3,
            BufferFormat::RGBA => 4,
            BufferFormat::BGRA => 4,
        }
    }

    /// Returns the OpenGL pixel-format constant this format stands for.
    pub fn gl_constant(&self) -> (c: u32)
        ensures
            c == self.spec_gl_constant(),
    {
        match *self {
            BufferFormat::R => GL_RED,
            BufferFormat::RG => GL_RG,
            BufferFormat::RGB => GL_RGB,
            BufferFormat::BGR => GL_BGR,
            BufferFormat::RGBA => GL_RGBA,
            BufferFormat::BGRA => GL_BGRA,
        }
    }
}

/// The component types a buffer may hold, as OpenGL data-type constants.
pub trait ToGlType {
    /// The OpenGL data-type constant that stands for `Self`.
    spec fn spec_gl_type() -> u32;

    /// Returns the OpenGL data-type constant that stands for `Self`. Only
    /// byte-sized component types are supported.
    fn to_gl_enum() -> (t: u32)
        ensures
            t == Self::spec_gl_type(),
            t == GL_BYTE || t == GL_UNSIGNED_BYTE,
    ;
}

impl ToGlType for u8 {
    open spec fn spec_gl_type() -> u32 {
        GL_UNSIGNED_BYTE
    }

    fn to_gl_enum() -> (t: u32) {
        GL_UNSIGNED_BYTE
    }
}

impl ToGlType for i8 {
    open spec fn spec_gl_type() -> u32 {
        GL_BYTE
    }

    fn to_gl_enum() -> (t: u32) {
        GL_BYTE
    }
}

/// The size in bytes of a value of the OpenGL data type `t`; meaningful for
/// the byte-sized types only.
pub open spec fn spec_gl_type_size(t: u32) -> int {
    if t == GL_BYTE || t == GL_UNSIGNED_BYTE {
        1
    } else {
        0
    }
}

/// Returns the size in bytes of a value of the OpenGL data type `t`; only
/// the byte-sized types are supported.
pub fn size_of_gl_type_enum(t: u32) -> (s: usize)
    requires
        t == GL_BYTE || t == GL_UNSIGNED_BYTE,
    ensures
        s == spec_gl_type_size(t),
{
    1
}

/// A width and height in pixels.
#[derive(Copy, Clone, PartialEq, Eq, Structural, Debug)]
pub struct Dims {
    /// The width in pixels.
    pub width: i32,

    /// The height in pixels.
    pub height: i32,
}

/// A pixel count clamped to the nonnegative range the graphics API can
/// carry.
pub open spec fn clamp_dim(v: u32) -> i32 {
    if v > i32::MAX as u32 {
        i32::MAX
    } else {
        v as i32
    }
}

/// The format of the caller's buffer: the order of the color components in
/// each pixel, and the OpenGL data-type constant of one component.
#[derive(Copy, Clone, PartialEq, Eq, Structural, Debug)]
pub struct TextureFormat {
    /// The order and number of the color components in each pixel.
    pub format: BufferFormat,

    /// The OpenGL data-type constant of one component.
    pub gl_type: u32,
}

/// The identifiers of the OpenGL objects backing a framebuffer, together
/// with the format of the caller's buffer.
#[derive(Copy, Clone, PartialEq, Eq, Structural, Debug)]
pub struct FramebufferInternal {
    /// The shader program the quad is drawn with.
    pub program: u32,

    /// The location of the buffer sampler uniform in the program.
    pub sampler_location: i32,

    /// The vertex shader attached to the program, if any.
    pub vertex_shader: Option<u32>,

    /// The geometry shader attached to the program, if any.
    pub geometry_shader: Option<u32>,

    /// The fragment shader attached to the program, if any.
    pub fragment_shader: Option<u32>,

    /// The texture the caller's buffer is uploaded to.
    pub texture: u32,

    /// The vertex array object of the quad.
    pub vao: u32,

    /// The vertex buffer object of the quad.
    pub vbo: u32,

    /// The format of the caller's buffer: its component order and the
    /// OpenGL data-type constant of one component.
    pub texture_format: TextureFormat,
}

/// Holds when the OpenGL object identifiers of `post` are those of `pre`;
/// only the texture format may differ.
pub open spec fn same_gl_resources(pre: FramebufferInternal, post: FramebufferInternal) -> bool {
    &&& post.program == pre.program
    &&& post.sampler_location == pre.sampler_location
    &&& post.vertex_shader == pre.vertex_shader
    &&& post.geometry_shader == pre.geometry_shader
    &&& post.fragment_shader == pre.fragment_shader
    &&& post.texture == pre.texture
    &&& post.vao == pre.vao
    &&& post.vbo == pre.vbo
}

/// Manages the state of one window's framebuffer: the logical size of the
/// caller's buffer, the physical size of the viewport, and the format the
/// buffer is interpreted in. The OpenGL calls that upload and draw the
/// buffer live with the caller; this type carries the bookkeeping and the
/// buffer-size validation that guards every upload.
#[derive(Copy, Clone, PartialEq, Eq, Structural, Debug)]
pub struct Framebuffer {
    /// The logical size of the buffer. An upload is expected to carry
    /// exactly `buffer_size.width * buffer_size.height` pixels.
    pub buffer_size: Dims,

    /// The physical size of the viewport. This should always be kept up to
    /// date with the size of the window.
    pub vp_size: Dims,

    /// Set every time the quad is drawn (by an upload or a redraw). It is
    /// safe to set this back to `false`; it is a flag that lets callers know
    /// whether code they called into has updated the buffer.
    pub did_draw: bool,

    /// True if the origin of the buffer is the bottom left of the screen
    /// instead of the top left.
    pub inverted_y: bool,

    /// The identifiers of the OpenGL objects backing this framebuffer.
    pub internal: FramebufferInternal,
}

impl Framebuffer {
    /// The buffer dimensions are nonnegative and the component type of the
    /// texture format is one of the supported byte-sized types.
    pub open spec fn wf(&self) -> bool {
        &&& self.buffer_size.width >= 0
        &&& self.buffer_size.height >= 0
        &&& (self.internal.texture_format.gl_type == GL_BYTE || self.internal.texture_format.gl_type
            == GL_UNSIGNED_BYTE)
    }

    /// The number of bytes an upload must carry: the size of one component,
    /// times components per pixel, times width, times height.
    pub open spec fn spec_buffer_bytes(&self) -> int {
        spec_gl_type_size(self.internal.texture_format.gl_type)
            * self.internal.texture_format.format.spec_components() * self.buffer_size.width
            * self.buffer_size.height
    }

    /// Returns the number of bytes an upload must carry for the current
    /// format and buffer size.
    pub fn buffer_bytes_expected(&self) -> (n: u64)
        requires
            self.wf(),
        ensures
            n == self.spec_buffer_bytes(),
    {
        let tsize = size_of_gl_type_enum(self.internal.texture_format.gl_type) as u64;
        let comps = self.internal.texture_format.format.components() as u64;
        let w = self.buffer_size.width as u64;
        let h = self.buffer_size.height as u64;
        let per_pixel = tsize * comps;
        assert(per_pixel * w <= 4 * 0x7fff_ffff) by (nonlinear_arith)
            requires
                per_pixel <= 4,
                w <= 0x7fff_ffff,
        ;
        let per_row = per_pixel * w;
        assert(per_row * h <= 0x1_ffff_fffc * 0x7fff_ffff) by (nonlinear_arith)
            requires
                per_row <= 0x1_ffff_fffc,
                h <= 0x7fff_ffff,
        ;
        per_row * h
    }

    /// Whether an upload of `data_bytes` bytes matches the current format
    /// and buffer size exactly.
    pub fn buffer_size_matches(&self, data_bytes: u64) -> (r: bool)
        requires
            self.wf(),
        ensures
            r == (data_bytes == self.spec_buffer_bytes()),
    {
        self.buffer_bytes_expected() == data_bytes
    }

    /// Records an upload of the caller's buffer: the size must match the
    /// current format and buffer size exactly, and the quad counts as drawn.
    /// The caller performs the texture upload itself and must refuse sizes
    /// that do not match.
    pub fn update_buffer(&mut self, data_bytes: u64)
        requires
            old(self).wf(),
            data_bytes == old(self).spec_buffer_bytes(),
        ensures
            final(self).wf(),
            final(self).did_draw,
            final(self).buffer_size == old(self).buffer_size,
            final(self).vp_size == old(self).vp_size,
            final(self).inverted_y == old(self).inverted_y,
            final(self).internal == old(self).internal,
    {
        self.did_draw = true;
    }

    /// Records that the quad was drawn again from the texture as it stands.
    pub fn redraw(&mut self)
        ensures
            final(self).did_draw,
            final(self).buffer_size == old(self).buffer_size,
            final(self).vp_size == old(self).vp_size,
            final(self).inverted_y == old(self).inverted_y,
            final(self).internal == old(self).internal,
    {
        self.did_draw = true;
    }

    /// Resizes the buffer. This does not affect the size of the window or
    /// of the viewport; the texture is scaled to fit. Sizes beyond the range
    /// the graphics API carries are clamped.
    pub fn resize_buffer(&mut self, buffer_width: u32, buffer_height: u32)
        ensures
            final(self).buffer_size == (Dims {
                width: clamp_dim(buffer_width),
                height: clamp_dim(buffer_height),
            }),
            final(self).vp_size == old(self).vp_size,
            final(self).did_draw == old(self).did_draw,
            final(self).inverted_y == old(self).inverted_y,
            final(self).internal == old(self).internal,
            old(self).wf() ==> final(self).wf(),
    {
        self.buffer_size = Dims { width: clamp_u32(buffer_width), height: clamp_u32(buffer_height) };
    }

    /// Sets the size of the viewport, the window area the quad is drawn to.
    /// This does not resize the window or the buffer. Sizes beyond the range
    /// the graphics API carries are clamped.
    pub fn resize_viewport(&mut self, width: u32, height: u32)
        ensures
            final(self).vp_size == (Dims { width: clamp_dim(width), height: clamp_dim(height) }),
            final(self).buffer_size == old(self).buffer_size,
            final(self).did_draw == old(self).did_draw,
            final(self).inverted_y == old(self).inverted_y,
            final(self).internal == old(self).internal,
            old(self).wf() ==> final(self).wf(),
    {
        self.vp_size = Dims { width: clamp_u32(width), height: clamp_u32(height) };
    }

    /// Changes the format the caller's buffer is interpreted in: the
    /// component order is `format` and the component type is `T`. This does
    /// not change how the texture is sampled, only what an upload carries.
    pub fn change_buffer_format<T: ToGlType>(&mut self, format: BufferFormat)
        ensures
            final(self).internal.texture_format == (TextureFormat { format, gl_type: T::spec_gl_type() }),
            same_gl_resources(old(self).internal, final(self).internal),
            final(self).buffer_size == old(self).buffer_size,
            final(self).vp_size == old(self).vp_size,
            final(self).did_draw == old(self).did_draw,
            final(self).inverted_y == old(self).inverted_y,
            old(self).wf() ==> final(self).wf(),
    {
        self.internal.texture_format = TextureFormat { format, gl_type: T::to_gl_enum() };
    }
}

/// A pixel count clamped to the nonnegative range the graphics API can
/// carry.
fn clamp_u32(v: u32) -> (r: i32)
    ensures
        r == clamp_dim(v),
{
    if v > i32::MAX as u32 {
        i32::MAX
    } else {
        v as i32
    }
}

/// What stands before the caller's code in an assembled post-process
/// shader: the declarations every post-process shader shares.
pub const POST_PROCESS_PREFIX: &'static str = "
    #version 330 core

    in vec2 v_uv;

    out vec4 r_frag_color;

    uniform sampler2D u_buffer;

";

/// What stands after the caller's code in an assembled post-process shader:
/// a main function that calls the `main_image` function the caller defines.
pub const POST_PROCESS_SUFFIX: &'static str = "
    void main() {
        main_image(r_frag_color, v_uv);
    }
";

/// Wraps a ShaderToy-style `main_image` function into a full fragment
/// shader: the caller's code is inserted, by literal substitution, between
/// the shared declarations and a main function that calls it.
pub fn make_post_process_shader(source: &str) -> (r: String)
    ensures
        r@ == POST_PROCESS_PREFIX@ + source@ + POST_PROCESS_SUFFIX@,
{
    let mut shader = POST_PROCESS_PREFIX.to_owned();
    shader.append(source);
    shader.append(POST_PROCESS_SUFFIX);
    shader
}

/// Builds the bookkeeping for a freshly created framebuffer from the OpenGL
/// resources the caller created for it. The buffer and viewport start at the
/// given sizes, nothing is drawn yet, and uploads are expected in the format
/// `internal` names.
pub fn init_framebuffer(
    buffer_width: u32,
    buffer_height: u32,
    viewport_width: u32,
    viewport_height: u32,
    invert_y: bool,
    internal: FramebufferInternal,
) -> (fb: Framebuffer)
    requires
        buffer_width <= i32::MAX,
        buffer_height <= i32::MAX,
        viewport_width <= i32::MAX,
        viewport_height <= i32::MAX,
        internal.texture_format.gl_type == GL_BYTE || internal.texture_format.gl_type == GL_UNSIGNED_BYTE,
    ensures
        fb.wf(),
        fb.buffer_size == (Dims { width: buffer_width as i32, height: buffer_height as i32 }),
        fb.vp_size == (Dims { width: viewport_width as i32, height: viewport_height as i32 }),
        !fb.did_draw,
        fb.inverted_y == invert_y,
        fb.internal == internal,
{
    Framebuffer {
        buffer_size: Dims { width: buffer_width as i32, height: buffer_height as i32 },
        vp_size: Dims { width: viewport_width as i32, height: viewport_height as i32 },
        did_draw: false,
        inverted_y: invert_y,
        internal,
    }
}

} // verus!
