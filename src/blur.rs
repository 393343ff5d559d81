use vstd::prelude::*;

use crate::device::{
    fresh, retired, spent, CommandView, Device, DeviceView, FilterMode, Sampling, Texture, WrapMode,
};
use crate::error::GlError;
use crate::framebuffer::{
    build_log, built, complete, handles, same_images, lemma_wf_untouched, release_log, Framebuffer,
    FramebufferView,
};
use crate::shader_program::ShaderProgram;

verus! {

/// Passes of the separable blur per run. The count is fixed: there is no
/// convergence test.
pub const BLUR_ITERATIONS: usize = 10;

/// The blur buffers are sampled with linear filtering, which the kernel's
/// weights assume, and clamped at the edges, so that no light bleeds in
/// from the opposite side of the screen.
pub open spec fn blur_sampling() -> Sampling {
    Sampling { filter: FilterMode::Linear, wrap: WrapMode::ClampToEdge }
}

fn linear_clamp() -> (r: Sampling)
    ensures
        r == blur_sampling(),
{
    Sampling { filter: FilterMode::Linear, wrap: WrapMode::ClampToEdge }
}

/// One of the two buffers of a ping-pong pair.
#[derive(Clone, Copy, Debug, PartialEq, Eq, Structural)]
pub enum PingPong {
    Ping,
    Pong,
}

/// Where a blur pass reads from: the stage's input, or one of its buffers.
#[derive(Clone, Copy, Debug, PartialEq, Eq, Structural)]
pub enum BlurSource {
    Input,
    Buffer(PingPong),
}

/// The blur's state between passes: the direction of the next pass, and
/// whether it is the first pass of the run.
#[derive(Clone, Copy, Debug, PartialEq, Eq, Structural)]
pub struct BlurState {
    pub horizontal: bool,
    pub first: bool,
}

/// What one pass does: the buffer it writes, what it reads, and the
/// direction of its one-dimensional kernel.
#[derive(Clone, Copy, Debug, PartialEq, Eq, Structural)]
pub struct BlurPass {
    pub write: PingPong,
    pub read: BlurSource,
    pub horizontal: bool,
}

pub open spec fn other(p: PingPong) -> PingPong {
    match p {
        PingPong::Ping => PingPong::Pong,
        PingPong::Pong => PingPong::Ping,
    }
}

/// A horizontal pass writes `Pong`, a vertical one `Ping`; the first pass
/// reads the input, every later one the buffer it does not write.
pub open spec fn pass_of(s: BlurState) -> BlurPass {
    let write = if s.horizontal {
        PingPong::Pong
    } else {
        PingPong::Ping
    };
    BlurPass {
        write,
        read: if s.first {
            BlurSource::Input
        } else {
            BlurSource::Buffer(other(write))
        },
        horizontal: s.horizontal,
    }
}

/// Each pass flips the direction and ends the first pass.
pub open spec fn next_state(s: BlurState) -> BlurState {
    BlurState { horizontal: !s.horizontal, first: false }
}

/// The state before pass `i` of a run.
pub open spec fn state_at(i: nat) -> BlurState {
    BlurState { horizontal: i % 2 == 0, first: i == 0 }
}

/// The buffer that holds the result after `n` passes.
pub open spec fn result_buffer(n: nat) -> PingPong {
    pass_of(state_at((n - 1) as nat)).write
}

pub proof fn lemma_state_step(i: nat)
    ensures
        next_state(state_at(i)) == state_at(i + 1),
{
}

/// The buffer that holds the result of `n >= 1` passes is `Ping` when `n`
/// is even and `Pong` when it is odd.
pub proof fn result_buffer_parity(n: nat)
    requires
        n >= 1,
    ensures
        result_buffer(n) == if n % 2 == 0 {
            PingPong::Ping
        } else {
            PingPong::Pong
        },
{
}

/// No pass reads the buffer it writes.
pub proof fn pass_never_reads_its_target(s: BlurState)
    ensures
        pass_of(s).read != BlurSource::Buffer(pass_of(s).write),
{
}

impl BlurState {
    /// The state at the start of a run: horizontal, first pass.
    pub fn start() -> (r: BlurState)
        ensures
            r == state_at(0),
    {
        BlurState { horizontal: true, first: true }
    }

    pub fn pass(&self) -> (r: BlurPass)
        ensures
            r == pass_of(*self),
            r.read != BlurSource::Buffer(r.write),
    {
        let write = if self.horizontal {
            PingPong::Pong
        } else {
            PingPong::Ping
        };
        let read = if self.first {
            BlurSource::Input
        } else {
            match write {
                PingPong::Ping => BlurSource::Buffer(PingPong::Pong),
                PingPong::Pong => BlurSource::Buffer(PingPong::Ping),
            }
        };
        BlurPass { write, read, horizontal: self.horizontal }
    }

    pub fn next(&self) -> (r: BlurState)
        ensures
            r == next_state(*self),
    {
        BlurState { horizontal: !self.horizontal, first: false }
    }
}

/// The abstract content of a [`BlurStage`].
pub struct BlurView {
    pub ping: FramebufferView,
    pub pong: FramebufferView,
    pub state: BlurState,
}

pub open spec fn buffer_of(v: BlurView, p: PingPong) -> FramebufferView {
    match p {
        PingPong::Ping => v.ping,
        PingPong::Pong => v.pong,
    }
}

/// The texture a pass samples.
pub open spec fn pass_input(v: BlurView, p: BlurPass, input: Texture) -> Texture {
    match p.read {
        BlurSource::Input => input,
        BlurSource::Buffer(b) => buffer_of(v, b).colors[0],
    }
}

/// The texture that holds the result of a full run.
pub open spec fn result_texture(v: BlurView) -> Texture {
    buffer_of(v, result_buffer(BLUR_ITERATIONS as nat)).colors[0]
}

/// The draw of pass `k` of a run: into the buffer it writes, sampling
/// exactly the one texture it reads.
pub open spec fn blur_draw(k: nat, program: usize, v: BlurView, input: Texture) -> CommandView {
    let p = pass_of(state_at(k));
    CommandView::DrawQuad {
        target: Some(buffer_of(v, p.write).id),
        program,
        inputs: seq![pass_input(v, p, input).id],
    }
}

/// Commands of the first `k` passes of a run: set the direction uniform,
/// then draw into the written buffer sampling exactly one texture.
pub open spec fn blur_log(k: nat, program: usize, v: BlurView, input: Texture) -> Seq<CommandView>
    decreases k,
{
    if k == 0 {
        Seq::empty()
    } else {
        blur_log((k - 1) as nat, program, v, input) + seq![
            CommandView::SetBool {
                program,
                name: "horizontal"@,
                value: state_at((k - 1) as nat).horizontal,
            },
            blur_draw((k - 1) as nat, program, v, input),
        ]
    }
}

impl BlurView {
    /// `id` is none of the handles of the two buffers.
    pub open spec fn foreign(self, id: int) -> bool {
        !(self.ping.id <= id < self.pong.end())
    }

    pub open spec fn wf(self, d: DeviceView) -> bool {
        &&& self.ping.wf(d)
        &&& self.pong.wf(d)
        &&& self.ping.colors.len() == 1
        &&& self.pong.colors.len() == 1
        &&& !self.ping.has_depth()
        &&& !self.pong.has_depth()
        &&& self.ping.sampling == blur_sampling()
        &&& self.pong.sampling == blur_sampling()
        &&& self.ping.end() <= self.pong.id
        &&& self.ping.width == self.pong.width
        &&& self.ping.height == self.pong.height
    }
}

/// The texture a pass samples is never one of the textures of the buffer it
/// writes, as long as the stage's input is not one of its own buffers.
pub proof fn pass_never_samples_its_target(v: BlurView, d: DeviceView, s: BlurState, input: Texture)
    requires
        v.wf(d),
        v.foreign(input.id as int),
    ensures
        forall|i: int|
            0 <= i < buffer_of(v, pass_of(s).write).colors.len() ==> #[trigger] buffer_of(
                v,
                pass_of(s).write,
            ).colors[i].id != pass_input(v, pass_of(s), input).id,
{
    assert(v.ping.colors[0].id == v.ping.id + 1);
    assert(v.pong.colors[0].id == v.pong.id + 1);
}

pub proof fn lemma_blur_log(n: nat, program: usize, v: BlurView, input: Texture)
    ensures
        blur_log(n, program, v, input).len() == 2 * n,
        forall|k: nat|
            k < n ==> blur_log(n, program, v, input)[2 * k as int + 1] == #[trigger] blur_draw(
                k,
                program,
                v,
                input,
            ),
    decreases n,
{
    if n > 0 {
        lemma_blur_log((n - 1) as nat, program, v, input);
        let prev = blur_log((n - 1) as nat, program, v, input);
        assert forall|k: nat| k < n implies blur_log(n, program, v, input)[2 * k as int + 1]
            == #[trigger] blur_draw(k, program, v, input) by {
            if k < n - 1 {
                assert(blur_log(n, program, v, input)[2 * k as int + 1] == prev[2 * k as int + 1]);
            }
        }
    }
}

/// During a run, the draw of every pass targets a buffer none of whose
/// textures it samples.
pub proof fn run_never_samples_its_target(
    v: BlurView,
    d: DeviceView,
    program: usize,
    input: Texture,
)
    requires
        v.wf(d),
        v.foreign(input.id as int),
    ensures
        forall|k: nat|
            k < BLUR_ITERATIONS ==> {
                &&& blur_log(BLUR_ITERATIONS as nat, program, v, input)[2 * k as int + 1]
                    == #[trigger] blur_draw(k, program, v, input)
                &&& forall|i: int|
                    0 <= i < buffer_of(v, pass_of(state_at(k)).write).colors.len() ==> (
                    #[trigger] buffer_of(v, pass_of(state_at(k)).write).colors[i]).id
                        != pass_input(v, pass_of(state_at(k)), input).id
            },
{
    lemma_blur_log(BLUR_ITERATIONS as nat, program, v, input);
    assert forall|k: nat| k < BLUR_ITERATIONS implies {
        &&& blur_log(BLUR_ITERATIONS as nat, program, v, input)[2 * k as int + 1]
            == #[trigger] blur_draw(k, program, v, input)
        &&& forall|i: int|
            0 <= i < buffer_of(v, pass_of(state_at(k)).write).colors.len() ==> (
            #[trigger] buffer_of(v, pass_of(state_at(k)).write).colors[i]).id != pass_input(
                v,
                pass_of(state_at(k)),
                input,
            ).id
    } by {
        pass_never_samples_its_target(v, d, state_at(k), input);
    }
}

/// A two-buffer stage that blurs a texture with a separable Gaussian
/// kernel, alternating horizontal and vertical passes between its buffers.
pub struct BlurStage {
    ping: Framebuffer,
    pong: Framebuffer,
    state: BlurState,
}

impl View for BlurStage {
    type V = BlurView;

    closed spec fn view(&self) -> BlurView {
        BlurView { ping: self.ping@, pong: self.pong@, state: self.state }
    }
}

impl BlurStage {
    /// Creates the two single-texture buffers at the given size.
    pub fn new(device: &mut Device, width: i32, height: i32) -> (r: Result<BlurStage, GlError>)
        ensures
            (r is Ok) == (old(device)@.size_ok(width, height) && old(device)@.has_room(4)
                && complete(old(device)@.limits, 1, false)),
            r matches Ok(b) ==> {
                &&& b@.wf(final(device)@)
                &&& b@.ping == built(old(device)@.live.len() as int, width, height, 1, false, blur_sampling(), Seq::empty())
                &&& b@.pong == built(old(device)@.live.len() + 2int, width, height, 1, false, blur_sampling(), Seq::empty())
                &&& b@.state == state_at(0)
                &&& final(device)@.live == old(device)@.live + fresh(4)
                &&& final(device)@.limits == old(device)@.limits
                &&& final(device)@.log == old(device)@.log + build_log(
                    old(device)@.live.len() as int,
                    width,
                    height,
                    1,
                    false,
                    blur_sampling(),
                ) + build_log(old(device)@.live.len() + 2int, width, height, 1, false, blur_sampling())
            },
            r matches Err(e) ==> {
                &&& !(old(device)@.size_ok(width, height) && old(device)@.has_room(4)) ==> e is AllocationFailed
                    && final(device)@ == old(device)@
                &&& (old(device)@.size_ok(width, height) && old(device)@.has_room(4)) ==> {
                    &&& e == GlError::FramebufferNotComplete(old(device)@.live.len() as usize)
                    &&& final(device)@.live == old(device)@.live + spent(2)
                    &&& final(device)@.limits == old(device)@.limits
                    &&& final(device)@.log == old(device)@.log + build_log(
                        old(device)@.live.len() as int,
                        width,
                        height,
                        1,
                        false,
                        blur_sampling(),
                    ) + release_log(
                        built(old(device)@.live.len() as int, width, height, 1, false, blur_sampling(), Seq::empty()),
                    )
                }
            },
    {
        if !device.size_ok(width, height) || !device.has_room(4) {
            return Err(GlError::AllocationFailed);
        }
        let ghost d0 = device@;
        let ping = Framebuffer::new(device, width, height, 1, false, linear_clamp())?;
        let ghost d1 = device@;
        let pong = match Framebuffer::new(device, width, height, 1, false, linear_clamp()) {
            Ok(fb) => fb,
            Err(e) => {
                proof {
                    assert(false);
                }
                return Err(e);
            },
        };
        proof {
            assert(device@.live =~= d0.live + fresh(4));
            assert(device@.log =~= d0.log + build_log(d0.live.len() as int, width, height, 1, false, blur_sampling())
                + build_log(d0.live.len() + 2int, width, height, 1, false, blur_sampling()));
            assert forall|x: int| ping@.id <= x < ping@.end() implies #[trigger] device@.live[x] by {
                assert(d1.live[x]);
            }
        }
        Ok(BlurStage { ping, pong, state: BlurState::start() })
    }

    /// Runs the fixed number of blur passes over `input` and returns the
    /// texture holding the result. Each pass sets the program's
    /// `horizontal` uniform, relinks the buffer it writes to the one texture
    /// it reads, and draws.
    pub fn run(&mut self, device: &mut Device, shader_program: &ShaderProgram, input: Texture) -> (r:
        Texture)
        requires
            old(self)@.wf(old(device)@),
            old(device)@.is_live(input.id as int),
            old(self)@.foreign(input.id as int),
        ensures
            final(self)@.wf(final(device)@),
            same_images(final(self)@.ping, old(self)@.ping),
            same_images(final(self)@.pong, old(self)@.pong),
            final(self)@.ping.inputs == seq![old(self)@.pong.colors[0]],
            final(self)@.pong.inputs == seq![old(self)@.ping.colors[0]],
            final(self)@.state == state_at(BLUR_ITERATIONS as nat),
            final(device)@.same_objects(old(device)@),
            final(device)@.log == old(device)@.log + blur_log(
                BLUR_ITERATIONS as nat,
                shader_program@.id,
                old(self)@,
                input,
            ),
            r == result_texture(old(self)@),
    {
        let ghost v0 = self@;
        let ghost d0 = device@;
        let ghost pid = shader_program@.id;
        self.state = BlurState::start();
        let mut i: usize = 0;
        while i < BLUR_ITERATIONS
            invariant
                0 <= i <= BLUR_ITERATIONS,
                pid == shader_program@.id,
                v0.wf(d0),
                d0.is_live(input.id as int),
                v0.foreign(input.id as int),
                self.state == state_at(i as nat),
                self@.wf(device@),
                same_images(self@.ping, v0.ping),
                same_images(self@.pong, v0.pong),
                device@.same_objects(d0),
                device@.log == d0.log + blur_log(i as nat, pid, v0, input),
                i >= 1 ==> buffer_of(self@, pass_of(state_at((i - 1) as nat)).write).inputs
                    == seq![pass_input(v0, pass_of(state_at((i - 1) as nat)), input)],
                i >= 2 ==> buffer_of(self@, pass_of(state_at((i - 2) as nat)).write).inputs
                    == seq![pass_input(v0, pass_of(state_at((i - 2) as nat)), input)],
            decreases BLUR_ITERATIONS - i,
        {
            let ghost prev = device@.log;
            let pass = self.state.pass();
            shader_program.set_bool(device, "horizontal", pass.horizontal);
            let source = match pass.read {
                BlurSource::Input => input,
                BlurSource::Buffer(PingPong::Ping) => self.ping.texture(0),
                BlurSource::Buffer(PingPong::Pong) => self.pong.texture(0),
            };
            proof {
                assert(source == pass_input(v0, pass, input));
                assert(device@.live[v0.ping.id + 1]);
                assert(device@.live[v0.pong.id + 1]);
                assert(device@.is_live(source.id as int));
                assert(handles(seq![source]) =~= seq![source.id]);
            }
            match pass.write {
                PingPong::Ping => {
                    self.ping.unlink();
                    self.ping.link_push(source);
                    proof {
                        assert(self.ping@.inputs =~= seq![source]);
                    }
                    let drawn = self.ping.draw(device, shader_program);
                    proof {
                        assert(drawn is Ok);
                    }
                },
                PingPong::Pong => {
                    self.pong.unlink();
                    self.pong.link_push(source);
                    proof {
                        assert(self.pong@.inputs =~= seq![source]);
                    }
                    let drawn = self.pong.draw(device, shader_program);
                    proof {
                        assert(drawn is Ok);
                    }
                },
            }
            self.state = self.state.next();
            i = i + 1;
            proof {
                lemma_state_step((i - 1) as nat);
                assert(device@.log =~= d0.log + blur_log(i as nat, pid, v0, input));
            }
        }
        proof {
            assert(self@.ping.inputs == seq![pass_input(v0, pass_of(state_at(9)), input)]);
            assert(self@.pong.inputs == seq![pass_input(v0, pass_of(state_at(8)), input)]);
        }
        self.output()
    }

    /// The texture that the last pass of a run writes.
    pub fn output(&self) -> (r: Texture)
        requires
            self@.ping.colors.len() == 1,
        ensures
            r == result_texture(self@),
    {
        proof {
            result_buffer_parity(BLUR_ITERATIONS as nat);
        }
        self.ping.texture(0)
    }

    /// Recreates both buffers at the new size (see [`Framebuffer::set_size`]).
    /// The size is checked first: a refused resize changes nothing.
    pub fn set_size(&mut self, device: &mut Device, width: i32, height: i32) -> (r: Result<
        (),
        GlError,
    >)
        requires
            old(self)@.wf(old(device)@),
        ensures
            (r is Ok) == (old(device)@.size_ok(width, height) && old(device)@.has_room(4)),
            r is Ok ==> {
                &&& final(self)@.wf(final(device)@)
                &&& final(self)@.ping == built(
                    old(device)@.live.len() as int,
                    width,
                    height,
                    1,
                    false,
                    blur_sampling(),
                    old(self)@.ping.inputs,
                )
                &&& final(self)@.pong == built(
                    old(device)@.live.len() + 2int,
                    width,
                    height,
                    1,
                    false,
                    blur_sampling(),
                    old(self)@.pong.inputs,
                )
                &&& final(self)@.state == old(self)@.state
                &&& final(device)@.live == retired(
                    retired(old(device)@.live, old(self)@.ping.id as int, 2) + fresh(2),
                    old(self)@.pong.id as int,
                    2,
                ) + fresh(2)
                &&& final(device)@.limits == old(device)@.limits
                &&& final(device)@.log == old(device)@.log + release_log(old(self)@.ping) + build_log(
                    old(device)@.live.len() as int,
                    width,
                    height,
                    1,
                    false,
                    blur_sampling(),
                ) + release_log(old(self)@.pong) + build_log(
                    old(device)@.live.len() + 2int,
                    width,
                    height,
                    1,
                    false,
                    blur_sampling(),
                )
            },
            r matches Err(e) ==> e is AllocationFailed && final(self)@ == old(self)@ && final(device)@ == old(device)@,
    {
        if !device.size_ok(width, height) || !device.has_room(4) {
            return Err(GlError::AllocationFailed);
        }
        let ghost d0 = device@;
        let ghost v0 = self@;
        let a = self.ping.set_size(device, width, height);
        proof {
            assert(a is Ok);
            lemma_wf_untouched(v0.pong, d0, device@, v0.ping.id as int, 2, 2);
        }
        let ghost d1 = device@;
        let b = self.pong.set_size(device, width, height);
        proof {
            assert(b is Ok);
            lemma_wf_untouched(self@.ping, d1, device@, v0.pong.id as int, 2, 2);
            assert(device@.log =~= d0.log + release_log(v0.ping) + build_log(
                d0.live.len() as int,
                width,
                height,
                1,
                false,
                blur_sampling(),
            ) + release_log(v0.pong) + build_log(d0.live.len() + 2int, width, height, 1, false, blur_sampling()));
        }
        Ok(())
    }
}

} // verus!
