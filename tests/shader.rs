use gl_safe::{
    Command, Device, FilterMode, GlError, Limits, PixelFormat, ShaderCompileType, ShaderProgram,
    ShaderStage, Texture, UniformBuffer, WrapMode,
};

fn device() -> Device {
    Device::new(Limits { max_draw_buffers: 8, max_size: 4096, allow_empty_target: false })
}

fn stage(kind: ShaderCompileType, path: &str) -> ShaderStage {
    ShaderStage { kind, path: path.to_owned() }
}

#[test]
fn program_stages_in_order() {
    let mut d = device();
    let p = ShaderProgram::new(&mut d, "a.vert".to_owned(), "a.frag".to_owned(), None).unwrap();
    let g = ShaderProgram::new(
        &mut d,
        "b.vert".to_owned(),
        "b.frag".to_owned(),
        Some("b.geom".to_owned()),
    )
    .unwrap();
    assert_eq!(p.id(), 0);
    assert_eq!(g.id(), 1);
    assert_eq!(
        g.stages(),
        vec![
            stage(ShaderCompileType::Vertex, "b.vert"),
            stage(ShaderCompileType::Fragment, "b.frag"),
            stage(ShaderCompileType::Geometry, "b.geom"),
        ]
    );
    assert_eq!(
        d.take_commands(),
        vec![
            Command::CompileProgram {
                program: 0,
                stages: vec![
                    stage(ShaderCompileType::Vertex, "a.vert"),
                    stage(ShaderCompileType::Fragment, "a.frag"),
                ],
            },
            Command::CompileProgram { program: 1, stages: g.stages() },
        ]
    );
    p.reload(&mut d);
    p.use_program(&mut d);
    p.set_bool(&mut d, "horizontal", false);
    p.set_int(&mut d, "image", 3);
    assert_eq!(
        d.take_commands(),
        vec![
            Command::CompileProgram { program: 0, stages: p.stages() },
            Command::UseProgram { program: 0 },
            Command::SetBool { program: 0, name: "horizontal".to_owned(), value: false },
            Command::SetInt { program: 0, name: "image".to_owned(), number: 3 },
        ]
    );
}

#[test]
fn compile_type_names() {
    assert_eq!(ShaderCompileType::Program.name(), "Program");
    assert_eq!(ShaderCompileType::Vertex.name(), "Vertex");
    assert_eq!(ShaderCompileType::Fragment.name(), "Fragment");
    assert_eq!(ShaderCompileType::Geometry.name(), "Geometry");
}

#[test]
fn uniform_buffer_binds_each_program() {
    let mut d = device();
    let a = ShaderProgram::new(&mut d, "a.vert".to_owned(), "a.frag".to_owned(), None).unwrap();
    let b = ShaderProgram::new(&mut d, "b.vert".to_owned(), "b.frag".to_owned(), None).unwrap();
    d.take_commands();
    let u = UniformBuffer::new(&mut d, vec![&a, &b], "Matrices", 128).unwrap();
    assert_eq!(
        d.take_commands(),
        vec![
            Command::CreateUniformBuffer { buffer: 2, size: 128 },
            Command::BindUniformBlock { program: 0, block: "Matrices".to_owned(), buffer: 2 },
            Command::BindUniformBlock { program: 1, block: "Matrices".to_owned(), buffer: 2 },
        ]
    );
    let c = ShaderProgram::new(&mut d, "c.vert".to_owned(), "c.frag".to_owned(), None).unwrap();
    d.take_commands();
    u.register_shader_program(&mut d, &c);
    assert_eq!(
        d.take_commands(),
        vec![Command::BindUniformBlock { program: 3, block: "Matrices".to_owned(), buffer: 2 }]
    );
}

#[test]
fn allocate_and_delete_texture() {
    let mut d = device();
    let t = d
        .allocate_texture(256, 128, PixelFormat::Rgb8, FilterMode::Linear, WrapMode::ClampToEdge)
        .unwrap();
    assert_eq!(
        t,
        Texture {
            id: 0,
            width: 256,
            height: 128,
            format: PixelFormat::Rgb8,
            filter: FilterMode::Linear,
            wrap: WrapMode::ClampToEdge,
        }
    );
    assert!(d.is_live(0));
    assert_eq!(
        d.allocate_texture(0, 128, PixelFormat::Rgba8, FilterMode::Nearest, WrapMode::Repeat),
        Err(GlError::AllocationFailed)
    );
    assert_eq!(
        d.allocate_texture(4097, 1, PixelFormat::Depth32f, FilterMode::Nearest, WrapMode::Repeat),
        Err(GlError::AllocationFailed)
    );
    d.delete_texture(t);
    assert!(!d.is_live(0));
    assert!(!d.is_live(1));
    assert_eq!(
        d.take_commands(),
        vec![Command::CreateTexture { texture: t }, Command::DeleteTexture { id: 0 }]
    );
}

#[test]
fn device_queries() {
    let mut d = device();
    assert_eq!(d.limits().max_draw_buffers, 8);
    assert!(d.size_ok(4096, 1));
    assert!(!d.size_ok(4096, 0));
    assert!(d.has_room(1000));
    assert!(d.has_room(usize::MAX));
    assert_eq!(d.issued(), 0);
    d.allocate_texture(1, 1, PixelFormat::Rgba8, FilterMode::Nearest, WrapMode::Repeat).unwrap();
    assert_eq!(d.issued(), 1);
    assert!(!d.has_room(usize::MAX));
    assert!(d.has_room(usize::MAX - 1));
}
