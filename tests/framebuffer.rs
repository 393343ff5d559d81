use gl_safe::{
    Command, DefaultFramebuffer, Device, FilterMode, Framebuffer, GlError, Limits, PixelFormat,
    RenderBuffer, Sampling, ShaderProgram, Texture, WrapMode,
};

const SAMPLING: Sampling = Sampling { filter: FilterMode::Nearest, wrap: WrapMode::Repeat };

fn device() -> Device {
    Device::new(Limits { max_draw_buffers: 8, max_size: 4096, allow_empty_target: false })
}

fn color(id: usize, width: i32, height: i32) -> Texture {
    Texture {
        id,
        width,
        height,
        format: PixelFormat::Rgba16f,
        filter: FilterMode::Nearest,
        wrap: WrapMode::Repeat,
    }
}

#[test]
fn new_allocates_in_order() {
    let mut d = device();
    let fb = Framebuffer::new(&mut d, 800, 600, 3, true, SAMPLING).unwrap();
    assert_eq!(fb.id(), 0);
    assert_eq!(fb.len(), 3);
    assert_eq!(fb.get_size(), (800, 600));
    assert_eq!(fb.get_link(), vec![color(1, 800, 600), color(2, 800, 600), color(3, 800, 600)]);
    assert_eq!(d.issued(), 5);
    for id in 0..5 {
        assert!(d.is_live(id));
    }
    let cmds = d.take_commands();
    assert_eq!(
        cmds,
        vec![
            Command::CreateFramebuffer { fb: 0 },
            Command::CreateTexture { texture: color(1, 800, 600) },
            Command::AttachColor { fb: 0, slot: 0, texture_id: 1 },
            Command::CreateTexture { texture: color(2, 800, 600) },
            Command::AttachColor { fb: 0, slot: 1, texture_id: 2 },
            Command::CreateTexture { texture: color(3, 800, 600) },
            Command::AttachColor { fb: 0, slot: 2, texture_id: 3 },
            Command::DrawBuffers { fb: 0, count: 3 },
            Command::CreateRenderBuffer {
                render_buffer: RenderBuffer { id: 4, width: 800, height: 600 },
            },
            Command::AttachDepth { fb: 0, render_buffer_id: 4 },
        ]
    );
    assert!(d.take_commands().is_empty());
}

#[test]
fn get_by_index() {
    let mut d = device();
    let fb = Framebuffer::new(&mut d, 64, 32, 2, false, SAMPLING).unwrap();
    assert_eq!(fb.get(0), Some(color(1, 64, 32)));
    assert_eq!(fb.get(1), Some(color(2, 64, 32)));
    assert_eq!(fb.get(2), None);
    assert_eq!(fb.texture(1), color(2, 64, 32));
}

#[test]
fn too_many_outputs_is_not_complete() {
    let mut d = device();
    let r = Framebuffer::new(&mut d, 800, 600, 9, false, SAMPLING);
    assert_eq!(r.err(), Some(GlError::FramebufferNotComplete(0)));
    // Everything created for the check was deleted again.
    assert_eq!(d.issued(), 10);
    for id in 0..10 {
        assert!(!d.is_live(id));
    }
    let cmds = d.take_commands();
    assert_eq!(cmds.len(), 1 + 2 * 9 + 1 + 9 + 1);
    assert_eq!(cmds[cmds.len() - 1], Command::DeleteFramebuffer { fb: 0 });
}

#[test]
fn largest_output_count_is_complete() {
    let mut d = device();
    let fb = Framebuffer::new(&mut d, 800, 600, 8, true, SAMPLING).unwrap();
    assert_eq!(fb.len(), 8);
    assert_eq!(fb.check_status(&d), Ok(()));
}

#[test]
fn empty_target_depends_on_backend() {
    let mut d = device();
    assert_eq!(
        Framebuffer::new(&mut d, 16, 16, 0, false, SAMPLING).err(),
        Some(GlError::FramebufferNotComplete(0))
    );
    let mut e =
        Device::new(Limits { max_draw_buffers: 8, max_size: 4096, allow_empty_target: true });
    let fb = Framebuffer::new(&mut e, 16, 16, 0, false, SAMPLING).unwrap();
    assert_eq!(fb.len(), 0);
    assert!(fb.get_link().is_empty());
}

#[test]
fn depth_only_target_is_complete() {
    let mut d = device();
    let fb = Framebuffer::new(&mut d, 16, 16, 0, true, SAMPLING).unwrap();
    assert_eq!(fb.len(), 0);
    assert_eq!(d.issued(), 2);
}

#[test]
fn bad_sizes_are_refused() {
    let mut d = device();
    assert_eq!(Framebuffer::new(&mut d, 0, 600, 1, false, SAMPLING).err(), Some(GlError::AllocationFailed));
    assert_eq!(Framebuffer::new(&mut d, 800, -1, 1, false, SAMPLING).err(), Some(GlError::AllocationFailed));
    assert_eq!(
        Framebuffer::new(&mut d, 4097, 600, 1, false, SAMPLING).err(),
        Some(GlError::AllocationFailed)
    );
    assert_eq!(d.issued(), 0);
    assert!(d.take_commands().is_empty());
    assert!(Framebuffer::new(&mut d, 4096, 4096, 1, false, SAMPLING).is_ok());
}

#[test]
fn resize_reissues_handles() {
    let mut d = device();
    let mut fb = Framebuffer::new(&mut d, 800, 600, 2, true, SAMPLING).unwrap();
    d.take_commands();
    assert_eq!(fb.set_size(&mut d, 1024, 768), Ok(()));
    assert_eq!(fb.id(), 4);
    assert_eq!(fb.get_size(), (1024, 768));
    assert_eq!(fb.get_link(), vec![color(5, 1024, 768), color(6, 1024, 768)]);
    for id in 0..4 {
        assert!(!d.is_live(id));
    }
    for id in 4..8 {
        assert!(d.is_live(id));
    }
    let cmds = d.take_commands();
    assert_eq!(
        &cmds[..4],
        &[
            Command::DeleteTexture { id: 1 },
            Command::DeleteTexture { id: 2 },
            Command::DeleteRenderBuffer { id: 3 },
            Command::DeleteFramebuffer { fb: 0 },
        ]
    );
    assert_eq!(cmds[4], Command::CreateFramebuffer { fb: 4 });
}

#[test]
fn resize_twice_is_resize_once() {
    let mut d = device();
    let mut fb = Framebuffer::new(&mut d, 800, 600, 3, true, SAMPLING).unwrap();
    assert_eq!(fb.set_size(&mut d, 1920, 1080), Ok(()));
    let once: Vec<(i32, i32)> = fb.get_link().iter().map(|t| (t.width, t.height)).collect();
    let status_once = fb.check_status(&d);
    assert_eq!(fb.set_size(&mut d, 1920, 1080), Ok(()));
    let twice: Vec<(i32, i32)> = fb.get_link().iter().map(|t| (t.width, t.height)).collect();
    assert_eq!(once, twice);
    assert_eq!(once, vec![(1920, 1080); 3]);
    assert_eq!(fb.check_status(&d), status_once);
    assert_eq!(fb.get_size(), (1920, 1080));
}

#[test]
fn refused_resize_changes_nothing() {
    let mut d = device();
    let mut fb = Framebuffer::new(&mut d, 800, 600, 1, false, SAMPLING).unwrap();
    d.take_commands();
    assert_eq!(fb.set_size(&mut d, 0, 10), Err(GlError::AllocationFailed));
    assert_eq!(fb.set_size(&mut d, 5000, 10), Err(GlError::AllocationFailed));
    assert_eq!(fb.get_size(), (800, 600));
    assert_eq!(fb.get_link(), vec![color(1, 800, 600)]);
    assert!(d.take_commands().is_empty());
}

#[test]
fn link_to_appends() {
    let mut d = device();
    let producer = Framebuffer::new(&mut d, 100, 100, 2, false, SAMPLING).unwrap();
    let mut consumer = Framebuffer::new(&mut d, 100, 100, 1, false, SAMPLING).unwrap();
    consumer.link_to_fb(&producer);
    consumer.link_push(producer.texture(0));
    consumer.link_to(vec![producer.texture(1)]);
    let program = ShaderProgram::new(&mut d, "v".to_owned(), "f".to_owned(), None).unwrap();
    d.take_commands();
    assert_eq!(consumer.draw(&mut d, &program), Ok(()));
    assert_eq!(
        d.take_commands(),
        vec![Command::DrawQuad { target: Some(3), program: 5, inputs: vec![1, 2, 1, 2] }]
    );
}

#[test]
fn unlink_leaves_producer_alone() {
    let mut d = device();
    let producer = Framebuffer::new(&mut d, 100, 100, 2, false, SAMPLING).unwrap();
    let mut consumer = Framebuffer::new(&mut d, 100, 100, 1, false, SAMPLING).unwrap();
    consumer.link_to_fb(&producer);
    assert_eq!(consumer.get_link(), vec![color(4, 100, 100)]);
    let before = producer.get_link();
    assert_eq!(before.len(), 2);
    consumer.unlink();
    assert_eq!(producer.get_link(), before);
    let program = ShaderProgram::new(&mut d, "v".to_owned(), "f".to_owned(), None).unwrap();
    d.take_commands();
    assert_eq!(consumer.draw(&mut d, &program), Ok(()));
    assert_eq!(
        d.take_commands(),
        vec![Command::DrawQuad { target: Some(3), program: 5, inputs: vec![] }]
    );
}

#[test]
fn link_survives_draws() {
    let mut d = device();
    let fb = Framebuffer::new(&mut d, 100, 100, 3, false, SAMPLING).unwrap();
    let first = fb.get_link();
    let program = ShaderProgram::new(&mut d, "v".to_owned(), "f".to_owned(), None).unwrap();
    for _ in 0..3 {
        assert_eq!(fb.draw(&mut d, &program), Ok(()));
    }
    assert_eq!(fb.get_link(), first);
    assert!(first[0].id < first[1].id && first[1].id < first[2].id);
}

#[test]
fn stale_link_is_refused() {
    let mut d = device();
    let mut producer = Framebuffer::new(&mut d, 100, 100, 1, false, SAMPLING).unwrap();
    let mut consumer = Framebuffer::new(&mut d, 100, 100, 1, false, SAMPLING).unwrap();
    consumer.link_to_fb(&producer);
    let program = ShaderProgram::new(&mut d, "v".to_owned(), "f".to_owned(), None).unwrap();
    assert_eq!(producer.set_size(&mut d, 200, 200), Ok(()));
    d.take_commands();
    assert_eq!(consumer.draw(&mut d, &program), Err(GlError::StaleTexture(1)));
    assert!(d.take_commands().is_empty());
    consumer.unlink();
    consumer.link_to_fb(&producer);
    assert_eq!(consumer.draw(&mut d, &program), Ok(()));
}

#[test]
fn bind_clears_depth_only_with_depth() {
    let mut d = device();
    let with = Framebuffer::new(&mut d, 10, 20, 1, true, SAMPLING).unwrap();
    let without = Framebuffer::new(&mut d, 30, 40, 1, false, SAMPLING).unwrap();
    d.take_commands();
    with.bind(&mut d);
    without.bind(&mut d);
    Framebuffer::unbind(&mut d);
    assert_eq!(
        d.take_commands(),
        vec![
            Command::BindFramebuffer { target: Some(0) },
            Command::Viewport { width: 10, height: 20 },
            Command::ClearDepth,
            Command::BindFramebuffer { target: Some(3) },
            Command::Viewport { width: 30, height: 40 },
            Command::BindFramebuffer { target: None },
        ]
    );
}

#[test]
fn destroy_deletes_everything() {
    let mut d = device();
    let fb = Framebuffer::new(&mut d, 10, 10, 2, true, SAMPLING).unwrap();
    d.take_commands();
    fb.destroy(&mut d);
    for id in 0..4 {
        assert!(!d.is_live(id));
    }
    assert_eq!(d.take_commands().len(), 4);
}

#[test]
fn screen_draws_its_links() {
    let mut d = device();
    let producer = Framebuffer::new(&mut d, 100, 100, 2, false, SAMPLING).unwrap();
    let program = ShaderProgram::new(&mut d, "v".to_owned(), "f".to_owned(), None).unwrap();
    let mut screen = DefaultFramebuffer::new(1280, 720);
    screen.link_to(producer.get_link());
    screen.resize(640, 480);
    assert_eq!(screen.get_size(), (640, 480));
    d.take_commands();
    screen.bind(&mut d);
    assert_eq!(screen.draw(&mut d, &program), Ok(()));
    assert_eq!(
        d.take_commands(),
        vec![
            Command::BindFramebuffer { target: None },
            Command::Viewport { width: 640, height: 480 },
            Command::DrawQuad { target: None, program: 3, inputs: vec![1, 2] },
        ]
    );
    screen.unlink();
    screen.link_push(producer.texture(1));
    assert_eq!(screen.draw(&mut d, &program), Ok(()));
    assert_eq!(
        d.take_commands(),
        vec![Command::DrawQuad { target: None, program: 3, inputs: vec![2] }]
    );
}

#[test]
fn screen_refuses_stale_link() {
    let mut d = device();
    let mut producer = Framebuffer::new(&mut d, 100, 100, 1, false, SAMPLING).unwrap();
    let program = ShaderProgram::new(&mut d, "v".to_owned(), "f".to_owned(), None).unwrap();
    let mut screen = DefaultFramebuffer::new(100, 100);
    screen.link_to(producer.get_link());
    assert_eq!(producer.set_size(&mut d, 50, 50), Ok(()));
    assert_eq!(screen.draw(&mut d, &program), Err(GlError::StaleTexture(1)));
}

#[test]
fn sampling_is_kept_across_resize() {
    let mut d = device();
    let linear = Sampling { filter: FilterMode::Linear, wrap: WrapMode::ClampToEdge };
    let mut fb = Framebuffer::new(&mut d, 32, 32, 2, false, linear).unwrap();
    for t in fb.get_link() {
        assert_eq!((t.filter, t.wrap), (FilterMode::Linear, WrapMode::ClampToEdge));
        assert_eq!(t.format, PixelFormat::Rgba16f);
    }
    assert_eq!(fb.resize(&mut d, 64, 16), Ok(()));
    for t in fb.get_link() {
        assert_eq!((t.filter, t.wrap, t.width, t.height), (FilterMode::Linear, WrapMode::ClampToEdge, 64, 16));
    }
}
