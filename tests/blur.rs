use gl_safe::{
    BlurPass, BlurSource, BlurStage, BlurState, Command, Device, FilterMode, Framebuffer, GlError,
    Limits, PingPong, Sampling, ShaderProgram, WrapMode, BLUR_ITERATIONS,
};

const SAMPLING: Sampling = Sampling { filter: FilterMode::Nearest, wrap: WrapMode::Repeat };

fn device() -> Device {
    Device::new(Limits { max_draw_buffers: 4, max_size: 2048, allow_empty_target: false })
}

#[test]
fn state_machine_alternates() {
    let mut s = BlurState::start();
    assert_eq!(s, BlurState { horizontal: true, first: true });
    assert_eq!(
        s.pass(),
        BlurPass { write: PingPong::Pong, read: BlurSource::Input, horizontal: true }
    );
    s = s.next();
    assert_eq!(
        s.pass(),
        BlurPass {
            write: PingPong::Ping,
            read: BlurSource::Buffer(PingPong::Pong),
            horizontal: false
        }
    );
    s = s.next();
    assert_eq!(
        s.pass(),
        BlurPass {
            write: PingPong::Pong,
            read: BlurSource::Buffer(PingPong::Ping),
            horizontal: true
        }
    );
}

#[test]
fn final_buffer_follows_parity() {
    for n in 1..=11usize {
        let mut s = BlurState::start();
        let mut last = s.pass().write;
        for _ in 0..n {
            let p = s.pass();
            assert_ne!(p.read, BlurSource::Buffer(p.write));
            last = p.write;
            s = s.next();
        }
        let expected = if n % 2 == 0 { PingPong::Ping } else { PingPong::Pong };
        assert_eq!(last, expected);
    }
}

#[test]
fn run_writes_alternately_and_ends_in_ping() {
    let mut d = device();
    let source = Framebuffer::new(&mut d, 320, 240, 2, false, SAMPLING).unwrap();
    let program = ShaderProgram::new(&mut d, "q.vert".to_owned(), "blur.frag".to_owned(), None)
        .unwrap();
    let mut stage = BlurStage::new(&mut d, 320, 240).unwrap();
    // source: 0 (textures 1, 2); program: 3; ping: 4 (texture 5); pong: 6 (texture 7)
    d.take_commands();
    let bright = source.texture(1);
    let result = stage.run(&mut d, &program, bright);
    assert_eq!(result.id, 5);
    assert_eq!((result.width, result.height), (320, 240));
    assert_eq!(stage.output(), result);
    let cmds = d.take_commands();
    assert_eq!(cmds.len(), 2 * BLUR_ITERATIONS);
    for i in 0..BLUR_ITERATIONS {
        let horizontal = i % 2 == 0;
        assert_eq!(
            cmds[2 * i],
            Command::SetBool { program: 3, name: "horizontal".to_owned(), value: horizontal }
        );
        let (target, input) = if i == 0 {
            (6, 2)
        } else if horizontal {
            (6, 5)
        } else {
            (4, 7)
        };
        assert_eq!(
            cmds[2 * i + 1],
            Command::DrawQuad { target: Some(target), program: 3, inputs: vec![input] }
        );
    }
}

#[test]
fn run_never_samples_its_target() {
    let mut d = device();
    let source = Framebuffer::new(&mut d, 64, 64, 2, false, SAMPLING).unwrap();
    let program = ShaderProgram::new(&mut d, "v".to_owned(), "f".to_owned(), None).unwrap();
    let mut stage = BlurStage::new(&mut d, 64, 64).unwrap();
    d.take_commands();
    stage.run(&mut d, &program, source.texture(1));
    let own = |fb: usize| fb + 1;
    let mut draws = 0;
    for c in d.take_commands() {
        if let Command::DrawQuad { target: Some(t), inputs, .. } = c {
            assert_eq!(inputs.len(), 1);
            assert_ne!(inputs[0], own(t));
            draws += 1;
        }
    }
    assert_eq!(draws, 10);
}

#[test]
fn run_is_deterministic_across_frames() {
    let mut d = device();
    let source = Framebuffer::new(&mut d, 64, 64, 2, false, SAMPLING).unwrap();
    let program = ShaderProgram::new(&mut d, "v".to_owned(), "f".to_owned(), None).unwrap();
    let mut stage = BlurStage::new(&mut d, 64, 64).unwrap();
    d.take_commands();
    let a = stage.run(&mut d, &program, source.texture(1));
    let first = d.take_commands();
    let b = stage.run(&mut d, &program, source.texture(1));
    let second = d.take_commands();
    assert_eq!(a, b);
    assert_eq!(first, second);
}

#[test]
fn stage_errors() {
    let mut d = device();
    assert_eq!(BlurStage::new(&mut d, 0, 10).err(), Some(GlError::AllocationFailed));
    let mut z = Device::new(Limits { max_draw_buffers: 0, max_size: 2048, allow_empty_target: true });
    assert_eq!(BlurStage::new(&mut z, 10, 10).err(), Some(GlError::FramebufferNotComplete(0)));
    assert!(!z.is_live(0) && !z.is_live(1));
}

#[test]
fn stage_resize() {
    let mut d = device();
    let source = Framebuffer::new(&mut d, 64, 64, 2, false, SAMPLING).unwrap();
    let program = ShaderProgram::new(&mut d, "v".to_owned(), "f".to_owned(), None).unwrap();
    let mut stage = BlurStage::new(&mut d, 64, 64).unwrap();
    assert_eq!(stage.set_size(&mut d, 3000, 64), Err(GlError::AllocationFailed));
    assert_eq!(stage.set_size(&mut d, 128, 96), Ok(()));
    let out = stage.output();
    assert_eq!((out.id, out.width, out.height), (9, 128, 96));
    let r = stage.run(&mut d, &program, source.texture(1));
    assert_eq!(r, out);
}

#[test]
fn blur_buffers_are_linear_and_clamped() {
    let mut d = device();
    let mut stage = BlurStage::new(&mut d, 64, 64).unwrap();
    let out = stage.output();
    assert_eq!((out.filter, out.wrap), (FilterMode::Linear, WrapMode::ClampToEdge));
    let cmds = d.take_commands();
    let created: Vec<_> = cmds
        .iter()
        .filter_map(|c| if let Command::CreateTexture { texture } = c { Some(*texture) } else { None })
        .collect();
    assert_eq!(created.len(), 2);
    assert!(created.iter().all(|t| t.filter == FilterMode::Linear && t.wrap == WrapMode::ClampToEdge));
    assert_eq!(stage.set_size(&mut d, 32, 32), Ok(()));
    let out = stage.output();
    assert_eq!((out.filter, out.wrap, out.width), (FilterMode::Linear, WrapMode::ClampToEdge, 32));
}
