use vstd::prelude::*;

use crate::blur::{
    blur_log, blur_sampling, result_texture, state_at, BlurStage, BlurView,
    BLUR_ITERATIONS,
};
use crate::device::{
    fresh, retired, spent, Command, CommandView, Device, DeviceView, FilterMode, Sampling, Texture,
    WrapMode,
};
use crate::error::GlError;
use crate::framebuffer::{
    bind_log, build_log, built, complete, handles, same_images, same_shape, lemma_wf_untouched, release_log, Framebuffer,
    FramebufferView,
};
use crate::shader_program::ShaderProgram;

verus! {

/// Handles a pipeline owns: the G-buffer (framebuffer, three textures,
/// depth), the lighting target (framebuffer, two textures, depth) and the
/// two blur buffers (framebuffer and texture each).
pub open spec fn pipeline_span() -> int {
    13
}

/// The G-buffer and lighting textures are read texel for texel.
pub open spec fn target_sampling() -> Sampling {
    Sampling { filter: FilterMode::Nearest, wrap: WrapMode::Repeat }
}

fn nearest_repeat() -> (r: Sampling)
    ensures
        r == target_sampling(),
{
    Sampling { filter: FilterMode::Nearest, wrap: WrapMode::Repeat }
}

/// The abstract content of a [`View3DRenderPipeline`].
pub struct PipelineView {
    pub gbuffer: FramebufferView,
    pub lighting: FramebufferView,
    pub blur: BlurView,
    pub lighting_program: usize,
    pub blur_program: usize,
    pub width: i32,
    pub height: i32,
}

impl PipelineView {
    /// The number of colour outputs of each target.
    pub open spec fn formed(self) -> bool {
        &&& self.gbuffer.colors.len() == 3
        &&& self.lighting.colors.len() == 2
        &&& self.blur.ping.colors.len() == 1
        &&& self.blur.pong.colors.len() == 1
    }

    pub open spec fn wf(self, d: DeviceView) -> bool {
        &&& self.formed()
        &&& self.gbuffer.wf(d)
        &&& self.lighting.wf(d)
        &&& self.blur.wf(d)
        &&& self.gbuffer.colors.len() == 3
        &&& self.gbuffer.has_depth()
        &&& self.lighting.colors.len() == 2
        &&& self.lighting.has_depth()
        &&& self.gbuffer.sampling == target_sampling()
        &&& self.lighting.sampling == target_sampling()
        &&& self.lighting.id == self.gbuffer.end()
        &&& self.blur.ping.id == self.lighting.end()
        &&& self.blur.pong.id == self.blur.ping.end()
        &&& self.lighting.inputs == self.gbuffer.colors
        &&& self.gbuffer.width == self.width && self.gbuffer.height == self.height
        &&& self.lighting.width == self.width && self.lighting.height == self.height
        &&& self.blur.ping.width == self.width && self.blur.ping.height == self.height
    }

    /// The handle of the first object the pipeline owns; it owns
    /// `pipeline_span()` handles from there on.
    pub open spec fn base(self) -> int {
        self.gbuffer.id as int
    }
}

/// The frame's output: the resolved colour and the blurred bloom.
pub open spec fn link_of(v: PipelineView) -> Seq<Texture> {
    seq![v.lighting.colors[0], result_texture(v.blur)]
}

/// The pipeline as built at `base` with the given size and programs; the
/// G-buffer samples `gbuffer_inputs`, each blur buffer what it sampled.
pub open spec fn pipeline_built(
    base: int,
    width: i32,
    height: i32,
    gbuffer_inputs: Seq<Texture>,
    blur: BlurView,
    lighting_program: usize,
    blur_program: usize,
) -> PipelineView {
    let gbuffer = built(base, width, height, 3, true, target_sampling(), gbuffer_inputs);
    PipelineView {
        gbuffer,
        lighting: built(base + 5, width, height, 2, true, target_sampling(), gbuffer.colors),
        blur: BlurView {
            ping: built(base + 9, width, height, 1, false, blur_sampling(), blur.ping.inputs),
            pong: built(base + 11, width, height, 1, false, blur_sampling(), blur.pong.inputs),
            state: blur.state,
        },
        lighting_program,
        blur_program,
        width,
        height,
    }
}

/// Commands that allocate the pipeline's targets at `base`.
pub open spec fn pipeline_build_log(base: int, width: i32, height: i32) -> Seq<CommandView> {
    build_log(base, width, height, 3, true, target_sampling()) + build_log(base + 5, width, height, 2, true, target_sampling())
        + build_log(base + 9, width, height, 1, false, blur_sampling()) + build_log(
        base + 11,
        width,
        height,
        1,
        false,
        blur_sampling(),
    )
}

/// Commands of one frame's post-processing: depth testing off, the
/// lighting pass over the G-buffer, then the blur of the bloom texture.
pub open spec fn frame_log(v: PipelineView) -> Seq<CommandView> {
    seq![
        CommandView::DepthTest { enabled: false },
        CommandView::DrawQuad {
            target: Some(v.lighting.id),
            program: v.lighting_program,
            inputs: handles(v.gbuffer.colors),
        },
    ] + blur_log(BLUR_ITERATIONS as nat, v.blur_program, v.blur, v.lighting.colors[1])
}

/// What a frame changes in the pipeline: only what the blur buffers sample.
pub open spec fn drawn(before: PipelineView, after: PipelineView) -> bool {
    &&& after.gbuffer == before.gbuffer
    &&& after.lighting == before.lighting
    &&& same_images(after.blur.ping, before.blur.ping)
    &&& same_images(after.blur.pong, before.blur.pong)
    &&& after.lighting_program == before.lighting_program
    &&& after.blur_program == before.blur_program
    &&& after.width == before.width
    &&& after.height == before.height
}

/// A frame leaves every target's images as they were, so the link taken
/// from the pipeline, and from each of its targets, is the same after it.
pub proof fn frame_keeps_links(before: PipelineView, after: PipelineView)
    requires
        drawn(before, after),
    ensures
        link_of(after) == link_of(before),
        after.gbuffer.colors == before.gbuffer.colors,
        after.lighting.colors == before.lighting.colors,
        after.blur.ping.colors == before.blur.ping.colors,
        after.blur.pong.colors == before.blur.pong.colors,
{
    assert(after.blur.ping.colors == after.blur.ping.with_inputs(before.blur.ping.inputs).colors);
    assert(after.blur.pong.colors == after.blur.pong.with_inputs(before.blur.pong.inputs).colors);
}

/// A resize of the pipeline is accepted: the size is one the backend takes
/// and handles are left for all four targets.
pub open spec fn pipeline_resize_ok(d: DeviceView, width: i32, height: i32) -> bool {
    d.size_ok(width, height) && d.has_room(pipeline_span())
}

/// Commands of a pipeline resize whose handles start at `base`: each target
/// in turn, G-buffer, lighting target, ping, pong, deleted then rebuilt.
pub open spec fn pipeline_resize_log(v: PipelineView, base: int, width: i32, height: i32) -> Seq<
    CommandView,
> {
    release_log(v.gbuffer) + build_log(base, width, height, 3, true, target_sampling())
        + release_log(v.lighting) + build_log(base + 5, width, height, 2, true, target_sampling())
        + release_log(v.blur.ping) + build_log(base + 9, width, height, 1, false, blur_sampling())
        + release_log(v.blur.pong) + build_log(base + 11, width, height, 1, false, blur_sampling())
}

/// What a resize of the pipeline leaves: where it is accepted, every target
/// rebuilt at the new size from fresh handles, the lighting target linked
/// to the new G-buffer, and the commands that do it; where it is refused,
/// everything as it was.
pub open spec fn pipeline_resize_step(
    d0: DeviceView,
    v0: PipelineView,
    width: i32,
    height: i32,
    d1: DeviceView,
    v1: PipelineView,
) -> bool {
    if pipeline_resize_ok(d0, width, height) {
        &&& v1.wf(d1)
        &&& v1 == pipeline_built(
            d0.live.len() as int,
            width,
            height,
            v0.gbuffer.inputs,
            v0.blur,
            v0.lighting_program,
            v0.blur_program,
        )
        &&& d1.live == retired(d0.live, v0.base(), pipeline_span()) + fresh(pipeline_span() as nat)
        &&& d1.limits == d0.limits
        &&& d1.log == d0.log + pipeline_resize_log(v0, d0.live.len() as int, width, height)
    } else {
        v1 == v0 && d1 == d0
    }
}

/// Same size and, target by target, the same images sizes.
pub open spec fn pipeline_same_shape(a: PipelineView, b: PipelineView) -> bool {
    &&& a.width == b.width
    &&& a.height == b.height
    &&& same_shape(a.gbuffer, b.gbuffer)
    &&& same_shape(a.lighting, b.lighting)
    &&& same_shape(a.blur.ping, b.blur.ping)
    &&& same_shape(a.blur.pong, b.blur.pong)
}

/// Resizing the pipeline twice to the same size ends as resizing it once:
/// the second resize is accepted exactly when the first was, and every
/// target keeps the image sizes the first gave it; a refused pair leaves
/// everything as it was. The one exception is a device that runs out of
/// handles between the two calls.
pub proof fn pipeline_resize_idempotent(
    v0: PipelineView,
    d0: DeviceView,
    v1: PipelineView,
    d1: DeviceView,
    v2: PipelineView,
    d2: DeviceView,
    width: i32,
    height: i32,
)
    requires
        v0.wf(d0),
        pipeline_resize_step(d0, v0, width, height, d1, v1),
        pipeline_resize_step(d1, v1, width, height, d2, v2),
        pipeline_resize_ok(d0, width, height) ==> d1.has_room(pipeline_span()),
    ensures
        pipeline_resize_ok(d1, width, height) == pipeline_resize_ok(d0, width, height),
        pipeline_same_shape(v2, v1),
        pipeline_resize_ok(d0, width, height) ==> v2.width == width && v2.height == height,
        !pipeline_resize_ok(d0, width, height) ==> v2 == v0 && d2 == d0,
{
}

/// The deferred-shading pipeline: a G-buffer that the scene draws into, a
/// lighting pass that resolves it into a colour and a bloom texture, and a
/// blur stage over the bloom. Its output is the colour and the blurred bloom.
pub struct View3DRenderPipeline {
    deferred_fb: Framebuffer,
    lighting_pass_fb: Framebuffer,
    lighting_pass_shader_program: ShaderProgram,
    blur: BlurStage,
    blur_shader_program: ShaderProgram,
    width: i32,
    height: i32,
}

impl View for View3DRenderPipeline {
    type V = PipelineView;

    closed spec fn view(&self) -> PipelineView {
        PipelineView {
            gbuffer: self.deferred_fb@,
            lighting: self.lighting_pass_fb@,
            blur: self.blur@,
            lighting_program: self.lighting_pass_shader_program@.id,
            blur_program: self.blur_shader_program@.id,
            width: self.width,
            height: self.height,
        }
    }
}

impl View3DRenderPipeline {
    /// Creates the G-buffer (three colour outputs and depth), the lighting
    /// target (two colour outputs and depth, linked to the G-buffer's
    /// outputs) and the blur stage, all at the given size.
    pub fn new(
        device: &mut Device,
        width: i32,
        height: i32,
        lighting_pass_shader_program: ShaderProgram,
        blur_shader_program: ShaderProgram,
    ) -> (r: Result<View3DRenderPipeline, GlError>)
        ensures
            (r is Ok) == (old(device)@.size_ok(width, height) && old(device)@.has_room(
                pipeline_span(),
            ) && complete(old(device)@.limits, 3, true)),
            r matches Ok(p) ==> {
                &&& p@.wf(final(device)@)
                &&& p@ == pipeline_built(
                    old(device)@.live.len() as int,
                    width,
                    height,
                    Seq::empty(),
                    p@.blur,
                    lighting_pass_shader_program@.id,
                    blur_shader_program@.id,
                )
                &&& p@.blur.state == state_at(0)
                &&& p@.blur.ping.inputs == Seq::<Texture>::empty()
                &&& p@.blur.pong.inputs == Seq::<Texture>::empty()
                &&& final(device)@.live == old(device)@.live + fresh(pipeline_span() as nat)
                &&& final(device)@.limits == old(device)@.limits
                &&& final(device)@.log == old(device)@.log + pipeline_build_log(
                    old(device)@.live.len() as int,
                    width,
                    height,
                )
            },
            r matches Err(e) ==> {
                &&& !(old(device)@.size_ok(width, height) && old(device)@.has_room(
                    pipeline_span(),
                )) ==> e is AllocationFailed && final(device)@ == old(device)@
                &&& (old(device)@.size_ok(width, height) && old(device)@.has_room(
                    pipeline_span(),
                )) ==> {
                    &&& e == GlError::FramebufferNotComplete(old(device)@.live.len() as usize)
                    &&& final(device)@.live == old(device)@.live + spent(5)
                    &&& final(device)@.limits == old(device)@.limits
                    &&& final(device)@.log == old(device)@.log + build_log(
                        old(device)@.live.len() as int,
                        width,
                        height,
                        3,
                        true,
                        target_sampling(),
                    ) + release_log(
                        built(old(device)@.live.len() as int, width, height, 3, true, target_sampling(), Seq::empty()),
                    )
                }
            },
    {
        if !device.size_ok(width, height) || !device.has_room(13) {
            return Err(GlError::AllocationFailed);
        }
        let ghost d0 = device@;
        let deferred_fb = Framebuffer::new(device, width, height, 3, true, nearest_repeat())?;
        let ghost d1 = device@;
        let mut lighting_pass_fb = match Framebuffer::new(device, width, height, 2, true, nearest_repeat()) {
            Ok(fb) => fb,
            Err(e) => {
                proof {
                    assert(false);
                }
                return Err(e);
            },
        };
        let ghost d2 = device@;
        let blur = match BlurStage::new(device, width, height) {
            Ok(b) => b,
            Err(e) => {
                proof {
                    assert(false);
                }
                return Err(e);
            },
        };
        lighting_pass_fb.link_to_fb(&deferred_fb);
        proof {
            assert(retired(d1.live, 0, 0) =~= d1.live);
            assert(retired(d2.live, 0, 0) =~= d2.live);
            lemma_wf_untouched(deferred_fb@, d1, d2, 0, 0, 4);
            lemma_wf_untouched(deferred_fb@, d2, device@, 0, 0, 4);
            lemma_wf_untouched(lighting_pass_fb@, d2, device@, 0, 0, 4);
            assert(device@.live =~= d0.live + fresh(13));
            assert(device@.log =~= d0.log + pipeline_build_log(d0.live.len() as int, width, height));
            assert(lighting_pass_fb@.inputs =~= deferred_fb@.colors);
        }
        Ok(
            View3DRenderPipeline {
                deferred_fb,
                lighting_pass_fb,
                lighting_pass_shader_program,
                blur,
                blur_shader_program,
                width,
                height,
            },
        )
    }

    /// Queues routing the scene's draws into the G-buffer at its size, with
    /// depth cleared.
    pub fn bind(&self, device: &mut Device)
        ensures
            final(device)@.same_objects(old(device)@),
            final(device)@.log == old(device)@.log + bind_log(self@.gbuffer),
    {
        self.deferred_fb.bind(device);
    }

    /// Queues one frame's post-processing (depth testing off, the lighting
    /// pass, the blur of the bloom texture) and returns the frame's output:
    /// the resolved colour and the blurred bloom.
    pub fn draw(&mut self, device: &mut Device) -> (r: Vec<Texture>)
        requires
            old(self)@.wf(old(device)@),
        ensures
            final(self)@.wf(final(device)@),
            drawn(old(self)@, final(self)@),
            final(self)@.blur.state == state_at(BLUR_ITERATIONS as nat),
            final(device)@.same_objects(old(device)@),
            final(device)@.log == old(device)@.log + frame_log(old(self)@),
            r@ == link_of(old(self)@),
    {
        let ghost v0 = self@;
        let ghost d0 = device@;
        device.push(Command::DepthTest { enabled: false });
        proof {
            assert forall|i: int| 0 <= i < v0.gbuffer.colors.len() implies device@.is_live(
                #[trigger] v0.lighting.inputs[i].id as int,
            ) by {
                assert(v0.gbuffer.colors[i].id == v0.gbuffer.id + 1 + i);
                assert(d0.live[v0.gbuffer.id + 1 + i]);
            }
        }
        let lit = self.lighting_pass_fb.draw(device, &self.lighting_pass_shader_program);
        proof {
            assert(lit is Ok);
            assert(d0.live[v0.lighting.id + 1 + 1]);
        }
        let bright = self.lighting_pass_fb.texture(1);
        let bloom = self.blur.run(device, &self.blur_shader_program, bright);
        let color = self.lighting_pass_fb.texture(0);
        proof {
            assert(device@.log =~= d0.log + frame_log(v0));
        }
        vec![color, bloom]
    }

    /// The output of the last frame: the resolved colour and the blurred
    /// bloom, in that order.
    pub fn get_link(&self) -> (r: Vec<Texture>)
        requires
            self@.formed(),
        ensures
            r@ == link_of(self@),
    {
        vec![self.lighting_pass_fb.texture(0), self.blur.output()]
    }

    /// Recreates every target at the new size, in order: G-buffer, lighting
    /// target, blur buffers; then links the lighting target to the new
    /// G-buffer outputs. The size and the handle supply are checked before
    /// anything is deleted, so a refused resize changes nothing.
    pub fn set_size(&mut self, device: &mut Device, width: i32, height: i32) -> (r: Result<
        (),
        GlError,
    >)
        requires
            old(self)@.wf(old(device)@),
        ensures
            (r is Ok) == pipeline_resize_ok(old(device)@, width, height),
            pipeline_resize_step(old(device)@, old(self)@, width, height, final(device)@, final(self)@),
            r matches Err(e) ==> e is AllocationFailed,
    {
        if !device.size_ok(width, height) || !device.has_room(13) {
            return Err(GlError::AllocationFailed);
        }
        let ghost v0 = self@;
        let ghost d0 = device@;
        let a = self.deferred_fb.set_size(device, width, height);
        let ghost d1 = device@;
        proof {
            assert(a is Ok);
            lemma_wf_untouched(v0.lighting, d0, d1, v0.gbuffer.id as int, 5, 5);
            lemma_wf_untouched(v0.blur.ping, d0, d1, v0.gbuffer.id as int, 5, 5);
            lemma_wf_untouched(v0.blur.pong, d0, d1, v0.gbuffer.id as int, 5, 5);
        }
        let b = self.lighting_pass_fb.set_size(device, width, height);
        let ghost d2 = device@;
        proof {
            assert(b is Ok);
            lemma_wf_untouched(self.deferred_fb@, d1, d2, v0.lighting.id as int, 4, 4);
            lemma_wf_untouched(v0.blur.ping, d1, d2, v0.lighting.id as int, 4, 4);
            lemma_wf_untouched(v0.blur.pong, d1, d2, v0.lighting.id as int, 4, 4);
        }
        let c = self.blur.set_size(device, width, height);
        proof {
            assert(c is Ok);
            let mid = DeviceView {
                live: retired(d2.live, v0.blur.ping.id as int, 2) + fresh(2),
                limits: d2.limits,
                log: d2.log,
            };
            lemma_wf_untouched(self.deferred_fb@, d2, mid, v0.blur.ping.id as int, 2, 2);
            lemma_wf_untouched(self.deferred_fb@, mid, device@, v0.blur.pong.id as int, 2, 2);
            lemma_wf_untouched(self.lighting_pass_fb@, d2, mid, v0.blur.ping.id as int, 2, 2);
            lemma_wf_untouched(self.lighting_pass_fb@, mid, device@, v0.blur.pong.id as int, 2, 2);
        }
        self.lighting_pass_fb.unlink();
        self.lighting_pass_fb.link_to_fb(&self.deferred_fb);
        self.width = width;
        self.height = height;
        proof {
            assert(self.lighting_pass_fb@.inputs =~= self.deferred_fb@.colors);
            assert(device@.live =~= retired(d0.live, v0.base(), 13) + fresh(13));
            assert(device@.log =~= d0.log + release_log(v0.gbuffer) + build_log(
                d0.live.len() as int,
                width,
                height,
                3,
                true,
                target_sampling(),
            ) + release_log(v0.lighting) + build_log(d0.live.len() + 5int, width, height, 2, true, target_sampling())
                + release_log(v0.blur.ping) + build_log(
                d0.live.len() + 9int,
                width,
                height,
                1,
                false,
                blur_sampling(),
            ) + release_log(v0.blur.pong) + build_log(
                d0.live.len() + 11int,
                width,
                height,
                1,
                false,
                blur_sampling(),
            ));
            assert(device@.log =~= d0.log + pipeline_resize_log(
                v0,
                d0.live.len() as int,
                width,
                height,
            ));
            assert(self@ =~= pipeline_built(
                d0.live.len() as int,
                width,
                height,
                v0.gbuffer.inputs,
                v0.blur,
                v0.lighting_program,
                v0.blur_program,
            ));
        }
        Ok(())
    }

    pub fn get_size(&self) -> (r: (i32, i32))
        ensures
            r == (self@.width, self@.height),
    {
        (self.width, self.height)
    }

    /// Appends textures to what the G-buffer samples.
    pub fn link_to(&mut self, output: Vec<Texture>)
        ensures
            final(self)@ == (PipelineView {
                gbuffer: old(self)@.gbuffer.with_inputs(old(self)@.gbuffer.inputs + output@),
                ..old(self)@
            }),
    {
        self.deferred_fb.link_to(output);
    }

    /// Appends one texture to what the G-buffer samples.
    pub fn link_push(&mut self, texture: Texture)
        ensures
            final(self)@ == (PipelineView {
                gbuffer: old(self)@.gbuffer.with_inputs(old(self)@.gbuffer.inputs.push(texture)),
                ..old(self)@
            }),
    {
        self.deferred_fb.link_push(texture);
    }

    /// Empties what the G-buffer samples.
    pub fn unlink(&mut self)
        ensures
            final(self)@ == (PipelineView {
                gbuffer: old(self)@.gbuffer.with_inputs(Seq::empty()),
                ..old(self)@
            }),
    {
        self.deferred_fb.unlink();
    }
}

} // verus!
