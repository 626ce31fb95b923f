use mini_gl_fb::framebuffer::{
    make_post_process_shader, size_of_gl_type_enum, TextureFormat, GL_BGR, GL_BGRA, GL_BYTE,
    GL_RED, GL_RG, GL_RGB, GL_RGBA, GL_UNSIGNED_BYTE, POST_PROCESS_PREFIX, POST_PROCESS_SUFFIX,
};
use mini_gl_fb::{init_framebuffer, BufferFormat, Dims, Framebuffer, FramebufferInternal, ToGlType};

fn test_internal() -> FramebufferInternal {
    FramebufferInternal {
        program: 1,
        sampler_location: 0,
        vertex_shader: Some(2),
        geometry_shader: None,
        fragment_shader: Some(3),
        texture: 4,
        vao: 5,
        vbo: 6,
        texture_format: TextureFormat { format: BufferFormat::RGBA, gl_type: GL_UNSIGNED_BYTE },
    }
}

fn test_fb() -> Framebuffer {
    init_framebuffer(800, 600, 800, 600, true, test_internal())
}

#[test]
fn components_per_format() {
    assert_eq!(BufferFormat::R.components(), 1);
    assert_eq!(BufferFormat::RG.components(), 2);
    assert_eq!(BufferFormat::RGB.components(), 3);
    assert_eq!(BufferFormat::BGR.components(), 3);
    assert_eq!(BufferFormat::RGBA.components(), 4);
    assert_eq!(BufferFormat::BGRA.components(), 4);
}

#[test]
fn gl_constants_per_format() {
    assert_eq!(BufferFormat::R.gl_constant(), GL_RED);
    assert_eq!(BufferFormat::RG.gl_constant(), GL_RG);
    assert_eq!(BufferFormat::RGB.gl_constant(), GL_RGB);
    assert_eq!(BufferFormat::BGR.gl_constant(), GL_BGR);
    assert_eq!(BufferFormat::RGBA.gl_constant(), GL_RGBA);
    assert_eq!(BufferFormat::BGRA.gl_constant(), GL_BGRA);
}

#[test]
fn byte_types_map_to_their_gl_constants() {
    assert_eq!(<u8 as ToGlType>::to_gl_enum(), GL_UNSIGNED_BYTE);
    assert_eq!(<i8 as ToGlType>::to_gl_enum(), GL_BYTE);
    assert_eq!(size_of_gl_type_enum(GL_BYTE), 1);
    assert_eq!(size_of_gl_type_enum(GL_UNSIGNED_BYTE), 1);
}

#[test]
fn init_framebuffer_starts_clean() {
    let fb = test_fb();
    assert_eq!(fb.buffer_size, Dims { width: 800, height: 600 });
    assert_eq!(fb.vp_size, Dims { width: 800, height: 600 });
    assert!(!fb.did_draw);
    assert!(fb.inverted_y);
    assert_eq!(fb.internal, test_internal());
}

#[test]
fn expected_bytes_count_format_and_size() {
    let fb = test_fb();
    assert_eq!(fb.buffer_bytes_expected(), 800 * 600 * 4);
    assert!(fb.buffer_size_matches(800 * 600 * 4));
    assert!(!fb.buffer_size_matches(800 * 600 * 4 - 1));
}

#[test]
fn update_buffer_marks_drawn() {
    let mut fb = test_fb();
    let bytes = fb.buffer_bytes_expected();
    fb.update_buffer(bytes);
    assert!(fb.did_draw);
    assert_eq!(fb.buffer_size, Dims { width: 800, height: 600 });
}

#[test]
fn redraw_marks_drawn() {
    let mut fb = test_fb();
    fb.redraw();
    assert!(fb.did_draw);
}

#[test]
fn resize_buffer_changes_expected_bytes() {
    let mut fb = test_fb();
    fb.resize_buffer(10, 20);
    assert_eq!(fb.buffer_size, Dims { width: 10, height: 20 });
    assert_eq!(fb.vp_size, Dims { width: 800, height: 600 });
    assert_eq!(fb.buffer_bytes_expected(), 10 * 20 * 4);
}

#[test]
fn resize_clamps_to_the_api_range() {
    let mut fb = test_fb();
    fb.resize_buffer(3_000_000_000, 7);
    assert_eq!(fb.buffer_size, Dims { width: i32::MAX, height: 7 });
    fb.resize_viewport(9, 4_000_000_000);
    assert_eq!(fb.vp_size, Dims { width: 9, height: i32::MAX });
}

#[test]
fn post_process_shader_wraps_the_source() {
    let source = "void main_image( out vec4 r_frag_color, in vec2 v_uv ) {}";
    let shader = make_post_process_shader(source);
    assert_eq!(shader, format!("{}{}{}", POST_PROCESS_PREFIX, source, POST_PROCESS_SUFFIX));
}

#[test]
fn change_buffer_format_changes_expected_bytes() {
    let mut fb = test_fb();
    fb.change_buffer_format::<i8>(BufferFormat::RG);
    assert_eq!(
        fb.internal.texture_format,
        TextureFormat { format: BufferFormat::RG, gl_type: GL_BYTE }
    );
    assert_eq!(fb.buffer_bytes_expected(), 800 * 600 * 2);
    assert_eq!(fb.internal.program, test_internal().program);
}
