use opengl_core::command::{self, GL_NEAREST, GL_TEXTURE_2D, GL_TEXTURE_MAG_FILTER, GL_TEXTURE_MIN_FILTER};
use opengl_core::shader::{attribute, attribute_location, uniform, uniform_location, Phase};
use opengl_core::{
    check_error, error_kind, Attribute, Call, DispatchTable, Entry, Failure, GlError, Library,
    OpenGLBuilder, ShaderBuild, Stage, Step, Texture, ENTRY_COUNT,
};

fn full_table() -> Vec<usize> {
    (0..ENTRY_COUNT).map(|i| 0x1000 + 8 * i).collect()
}

fn builder() -> OpenGLBuilder {
    let lib = Library { handle: 0x10 };
    OpenGLBuilder::new(lib, 0x20, 0x30, 33).unwrap().0
}

#[test]
fn error_codes_sort_into_kinds() {
    assert_eq!(check_error(0), Ok(()));
    assert_eq!(check_error(0x0500), Err(GlError::InvalidEnum));
    assert_eq!(check_error(0x0501), Err(GlError::InvalidValue));
    assert_eq!(check_error(0x0502), Err(GlError::InvalidOperation));
    assert_eq!(check_error(0x0503), Err(GlError::StackOverflow));
    assert_eq!(check_error(0x0504), Err(GlError::StackUnderflow));
    assert_eq!(check_error(0x0505), Err(GlError::OutOfMemory));
    assert_eq!(check_error(0x0506), Err(GlError::Unknown));
    assert_eq!(error_kind(0x9999), GlError::Unknown);
}

#[test]
fn error_messages() {
    assert_eq!(GlError::InvalidEnum.message(), "OpenGL Error: Invalid enum");
    assert_eq!(GlError::OutOfMemory.message(), "OpenGL Error: Out of memory");
    assert_eq!(GlError::Unknown.message(), "OpenGL Error: Unknown");
}

#[test]
fn entries_and_slots_agree() {
    for i in 0..ENTRY_COUNT {
        assert_eq!(Entry::at(i).index(), i);
    }
    assert_eq!(Entry::Clear.symbol(), "glClear");
    assert_eq!(Entry::GetUniformLocation.symbol(), "glGetUniformLocation");
    assert_eq!(Entry::Viewport.symbol(), "glViewport");
    assert_eq!(Entry::Viewport.index(), ENTRY_COUNT - 1);
}

#[test]
fn table_is_all_or_nothing() {
    let t = DispatchTable::from_resolved(full_table()).unwrap();
    assert_eq!(t.address(Entry::Clear), 0x1000);
    assert_eq!(t.address(Entry::Viewport), 0x1000 + 8 * 29);
    let mut missing = full_table();
    missing[17] = 0;
    assert!(DispatchTable::from_resolved(missing).is_none());
    let mut short = full_table();
    short.pop();
    assert!(DispatchTable::from_resolved(short).is_none());
    assert!(DispatchTable::from_resolved(Vec::new()).is_none());
}

#[test]
fn builder_needs_library_and_display() {
    assert!(OpenGLBuilder::new(Library { handle: 0 }, 1, 1, 5).is_none());
    assert!(OpenGLBuilder::new(Library { handle: 1 }, 0, 1, 5).is_none());
    assert!(OpenGLBuilder::new(Library { handle: 1 }, 1, 0, 5).is_none());
    let (b, visual) = OpenGLBuilder::new(Library { handle: 1 }, 2, 3, 5).unwrap();
    assert_eq!(visual, 5);
    assert_eq!(b.library(), Library { handle: 1 });
    assert_eq!(b.display().display, 2);
    assert_eq!(b.display().config, 3);
    assert_eq!(b.display().surface, 0);
}

#[test]
fn context_completes_with_window_and_table() {
    let gl = builder().to_opengl(0x40, 0x50, 0x60, full_table()).unwrap();
    let d = gl.display();
    assert_eq!((d.display, d.config, d.window, d.surface, d.context), (0x20, 0x30, 0x40, 0x50, 0x60));
    assert_eq!(gl.library().handle, 0x10);
    assert_eq!(gl.address(Entry::GetError), 0x1000 + 8 * 4);
}

#[test]
fn context_fails_without_surface_or_symbol() {
    assert!(builder().to_opengl(0x40, 0, 0x60, full_table()).is_none());
    assert!(builder().to_opengl(0x40, 0x50, 0, full_table()).is_none());
    let mut missing = full_table();
    missing[0] = 0;
    assert!(builder().to_opengl(0x40, 0x50, 0x60, missing).is_none());
}

#[test]
fn fixed_state_calls() {
    assert_eq!(command::clear(), Call::Clear { mask: 0x4100 });
    assert_eq!(command::enable(0x0BE2), Call::Enable { cap: 0x0BE2 });
    assert_eq!(command::disable(0x0B71), Call::Disable { cap: 0x0B71 });
    assert_eq!(
        command::blend(),
        Call::BlendFuncSeparate { src_rgb: 0x0302, dst_rgb: 0x0303, src_alpha: 0x0302, dst_alpha: 0x0304 }
    );
    assert_eq!(command::use_program(7), Call::UseProgram { program: 7 });
    assert_eq!(command::set_mat4(3), Call::UniformMatrix4fv { location: 3, count: 1, transpose: false });
}

#[test]
fn buffer_calls() {
    assert_eq!(command::bind_buffer(true, 4), Call::BindBuffer { target: 0x8893, buffer: 4 });
    assert_eq!(command::bind_buffer(false, 5), Call::BindBuffer { target: 0x8892, buffer: 5 });
    assert_eq!(
        command::set_buffer(false, 12, 4),
        Call::BufferData { target: 0x8892, size: 48, usage: 0x88E8 }
    );
    assert_eq!(command::set_buffer(true, 0, 4), Call::BufferData { target: 0x8893, size: 0, usage: 0x88E8 });
    assert_eq!(command::new_buffers(3), Ok(Call::GenBuffers { n: 3 }));
    assert_eq!(command::new_buffers(1usize << 31), Err(GlError::InvalidValue));
}

#[test]
fn draw_calls() {
    assert_eq!(
        command::draw_elements(6),
        Ok(Call::DrawElements { mode: 0x0004, count: 6, index_type: 0x1405 })
    );
    assert_eq!(command::draw_elements(u32::MAX), Err(GlError::InvalidValue));
    assert_eq!(
        command::vertex_attrib(&Attribute(2)),
        Call::VertexAttribPointer { index: 2, components: 4, data_type: 0x1406, normalized: false, stride: 0 }
    );
}

#[test]
fn viewport_twice_is_once() {
    let a = command::viewport(640, 480);
    let b = command::viewport(640, 480);
    assert_eq!(a, Ok(Call::Viewport { x: 0, y: 0, width: 640, height: 480 }));
    assert_eq!(a, b);
    assert_eq!(command::viewport(1 << 31, 1), Err(GlError::InvalidValue));
}

#[test]
fn texture_calls() {
    let (t, calls) = command::new_texture(9);
    assert_eq!(t, Texture(9));
    assert_eq!(
        calls,
        vec![
            Call::BindTexture { target: GL_TEXTURE_2D, texture: 9 },
            Call::TexParameteri { target: GL_TEXTURE_2D, pname: GL_TEXTURE_MIN_FILTER, param: GL_NEAREST },
            Call::TexParameteri { target: GL_TEXTURE_2D, pname: GL_TEXTURE_MAG_FILTER, param: GL_NEAREST },
        ]
    );
    assert_eq!(command::gen_texture(), Call::GenTextures { n: 1 });
    assert_eq!(command::use_texture(&Texture(4)), Call::BindTexture { target: 0x0DE1, texture: 4 });
    assert_eq!(
        command::set_texture(2, 3, 6),
        Ok(Call::TexImage2D {
            target: 0x0DE1,
            level: 0,
            internal_format: 0x1908,
            width: 2,
            height: 3,
            format: 0x1908,
            pixel_type: 0x1401,
        })
    );
    assert_eq!(command::set_texture(2, 3, 5), Err(GlError::InvalidValue));
    assert_eq!(command::set_texture(0, 0, 0).is_ok(), true);
}

#[test]
fn shader_source_needs_terminator() {
    assert_eq!(ShaderBuild::new(b"void main(){}", b"void main(){}\0").err(), Some(Failure::Unterminated));
    assert_eq!(ShaderBuild::new(b"void main(){}\0", b"void main(){}").err(), Some(Failure::Unterminated));
    assert_eq!(ShaderBuild::new(b"", b"\0").err(), Some(Failure::Unterminated));
    assert_eq!(ShaderBuild::new(b"\0", b"\0").unwrap().phase, Phase::Start);
}

#[test]
fn shader_build_clean_path() {
    let mut b = ShaderBuild::new(b"v\0", b"f\0").unwrap();
    let replies: [(u32, u32); 13] =
        [(0, 0), (1, 0), (0, 0), (0, 0), (1, 0), (2, 0), (0, 0), (0, 0), (1, 0), (3, 0), (0, 0), (0, 0), (0, 0)];
    let mut steps = Vec::new();
    for (value, error) in replies {
        steps.push(b.advance(value, error));
    }
    assert_eq!(steps[0], Step::Issue(Call::CreateShader { kind: 0x8B31 }));
    assert_eq!(steps[1], Step::Issue(Call::ShaderSource { shader: 1 }));
    assert_eq!(steps[3], Step::Issue(Call::GetShaderiv { shader: 1, pname: 0x8B81 }));
    assert_eq!(steps[4], Step::Issue(Call::CreateShader { kind: 0x8B30 }));
    assert_eq!(steps[6], Step::Issue(Call::CompileShader { shader: 2 }));
    assert_eq!(steps[8], Step::Issue(Call::CreateProgram));
    assert_eq!(steps[9], Step::Issue(Call::AttachShader { program: 3, shader: 1 }));
    assert_eq!(steps[10], Step::Issue(Call::AttachShader { program: 3, shader: 2 }));
    assert_eq!(steps[11], Step::Issue(Call::LinkProgram { program: 3 }));
    assert_eq!(steps[12], Step::Finished(3));
    assert_eq!(b.phase, Phase::Over);
}

#[test]
fn shader_build_reports_compile_failure() {
    let mut b = ShaderBuild::new(b"v\0", b"f\0").unwrap();
    for (value, error) in [(0u32, 0u32), (1, 0), (0, 0), (0, 0), (1, 0), (2, 0), (0, 0), (0, 0)] {
        assert!(matches!(b.advance(value, error), Step::Issue(_)));
    }
    assert_eq!(b.advance(0, 0), Step::Issue(Call::GetShaderiv { shader: 2, pname: 0x8B84 }));
    assert_eq!(b.advance(42, 0), Step::Issue(Call::GetShaderInfoLog { shader: 2, max_len: 42 }));
    assert_eq!(b.advance(0, 0), Step::Failed(Failure::CompileFailed { stage: Stage::Fragment, log_len: 42 }));
}

#[test]
fn shader_build_stops_on_driver_error() {
    let mut b = ShaderBuild::new(b"v\0", b"f\0").unwrap();
    assert_eq!(b.advance(0, 0x0505), Step::Failed(Failure::Driver(GlError::OutOfMemory)));
    let mut b = ShaderBuild::new(b"v\0", b"f\0").unwrap();
    b.advance(0, 0);
    b.advance(1, 0);
    assert_eq!(b.advance(0, 0x0501), Step::Failed(Failure::Driver(GlError::InvalidValue)));
}

#[test]
fn uniform_lookup() {
    assert_eq!(uniform(3, b"missing"), Err(Failure::Unterminated));
    assert_eq!(uniform(3, b"transform\0"), Ok(Call::GetUniformLocation { program: 3 }));
    assert_eq!(uniform_location(-1, 0), Err(Failure::NoSuchUniform));
    assert_eq!(uniform_location(0, 0), Ok(0));
    assert_eq!(uniform_location(4, 0x0502), Err(Failure::Driver(GlError::InvalidOperation)));
}

#[test]
fn attribute_lookup_enables_array() {
    assert_eq!(attribute(3, b""), Err(Failure::Unterminated));
    assert_eq!(attribute(3, b"pos\0"), Ok(Call::GetAttribLocation { program: 3 }));
    assert_eq!(attribute_location(-1, 0), Err(Failure::NoSuchAttribute));
    assert_eq!(
        attribute_location(2, 0),
        Ok((Attribute(2), Call::EnableVertexAttribArray { index: 2 }))
    );
    assert_eq!(attribute_location(2, 0x0500), Err(Failure::Driver(GlError::InvalidEnum)));
}
