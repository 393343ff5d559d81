use vstd::prelude::*;

use crate::device::{Command, CommandView, DepthFunc, Device, Texture};
use crate::error::GlError;
use crate::framebuffer::bind_log;
use crate::blur::{state_at, BLUR_ITERATIONS};
use crate::pipeline::{
    drawn, frame_log, link_of, pipeline_resize_ok, pipeline_resize_step, PipelineView,
    View3DRenderPipeline,
};
use crate::shader_program::ShaderProgram;

verus! {

/// The abstract content of a [`View3DScene`].
pub struct SceneView {
    pub models: Seq<usize>,
    pub model_program: usize,
    pub skybox: usize,
    pub skybox_program: usize,
    pub pipeline: PipelineView,
}

/// Commands that draw the opaque models, in order.
pub open spec fn models_log(models: Seq<usize>, program: usize) -> Seq<CommandView> {
    Seq::new(models.len(), |i: int| CommandView::DrawMesh { mesh: models[i], program })
}

/// Commands that draw the skybox: with a less-or-equal depth test, so that
/// it fills exactly the pixels that no model covered, then the usual test
/// again.
pub open spec fn skybox_log(v: SceneView) -> Seq<CommandView> {
    seq![
        CommandView::DepthFunction { func: DepthFunc::LessEqual },
        CommandView::DrawMesh { mesh: v.skybox, program: v.skybox_program },
        CommandView::DepthFunction { func: DepthFunc::Less },
    ]
}

/// Commands of a whole frame: depth testing on, the G-buffer bound, the
/// models, the skybox, then the post-processing passes.
pub open spec fn scene_log(v: SceneView) -> Seq<CommandView> {
    seq![CommandView::DepthTest { enabled: true }] + bind_log(v.pipeline.gbuffer) + seq![
        CommandView::UseProgram { program: v.model_program },
    ] + models_log(v.models, v.model_program) + skybox_log(v) + frame_log(v.pipeline)
}

/// The position of the skybox draw in a frame's commands.
pub open spec fn skybox_index(v: SceneView) -> int {
    1int + bind_log(v.pipeline.gbuffer).len() + 1 + v.models.len() + 1
}

/// In a frame, the skybox is drawn after every model, into the same depth
/// buffer, with the less-or-equal depth comparison in force.
pub proof fn skybox_after_models(v: SceneView)
    ensures
        scene_log(v)[skybox_index(v)] == (CommandView::DrawMesh {
            mesh: v.skybox,
            program: v.skybox_program,
        }),
        scene_log(v)[skybox_index(v) - 1] == (CommandView::DepthFunction {
            func: DepthFunc::LessEqual,
        }),
        forall|i: int|
            #![trigger v.models[i]]
            0 <= i < v.models.len() ==> {
                let k = 1int + bind_log(v.pipeline.gbuffer).len() + 1 + i;
                &&& k < skybox_index(v)
                &&& scene_log(v)[k] == (CommandView::DrawMesh {
                    mesh: v.models[i],
                    program: v.model_program,
                })
            },
{
    let pre = seq![CommandView::DepthTest { enabled: true }] + bind_log(v.pipeline.gbuffer)
        + seq![CommandView::UseProgram { program: v.model_program }];
    assert(scene_log(v) == pre + models_log(v.models, v.model_program) + skybox_log(v)
        + frame_log(v.pipeline));
}

/// A 3D scene: models drawn into the pipeline's G-buffer, the skybox
/// behind them, then the pipeline's post-processing. Meshes are named by
/// the caller's handles; the camera is the caller's too.
pub struct View3DScene {
    models: Vec<usize>,
    model_shader_program: ShaderProgram,
    skybox: usize,
    skybox_shader_program: ShaderProgram,
    render_pipeline: View3DRenderPipeline,
}

impl View for View3DScene {
    type V = SceneView;

    closed spec fn view(&self) -> SceneView {
        SceneView {
            models: self.models@,
            model_program: self.model_shader_program@.id,
            skybox: self.skybox,
            skybox_program: self.skybox_shader_program@.id,
            pipeline: self.render_pipeline@,
        }
    }
}

impl View3DScene {
    pub fn new(
        models: Vec<usize>,
        model_shader_program: ShaderProgram,
        skybox: usize,
        skybox_shader_program: ShaderProgram,
        render_pipeline: View3DRenderPipeline,
    ) -> (r: View3DScene)
        ensures
            r@ == (SceneView {
                models: models@,
                model_program: model_shader_program@.id,
                skybox,
                skybox_program: skybox_shader_program@.id,
                pipeline: render_pipeline@,
            }),
    {
        View3DScene {
            models,
            model_shader_program,
            skybox,
            skybox_shader_program,
            render_pipeline,
        }
    }

    pub fn pipeline(&self) -> (r: &View3DRenderPipeline)
        ensures
            r@ == self@.pipeline,
    {
        &self.render_pipeline
    }

    /// Queues a frame (see [`scene_log`]) and returns the pipeline's output.
    pub fn draw(&mut self, device: &mut Device) -> (r: Vec<Texture>)
        requires
            old(self)@.pipeline.wf(old(device)@),
        ensures
            final(self)@.pipeline.wf(final(device)@),
            drawn(old(self)@.pipeline, final(self)@.pipeline),
            final(self)@.pipeline.blur.state == state_at(BLUR_ITERATIONS as nat),
            final(self)@ == (SceneView { pipeline: final(self)@.pipeline, ..old(self)@ }),
            final(device)@.same_objects(old(device)@),
            final(device)@.log == old(device)@.log + scene_log(old(self)@),
            r@ == link_of(old(self)@.pipeline),
    {
        let ghost v0 = self@;
        let ghost d0 = device@;
        device.push(Command::DepthTest { enabled: true });
        self.render_pipeline.bind(device);
        self.model_shader_program.use_program(device);
        let ghost start = device@.log;
        let mut i: usize = 0;
        while i < self.models.len()
            invariant
                0 <= i <= v0.models.len(),
                self@ == v0,
                device@.same_objects(d0),
                device@.log == start + models_log(v0.models.subrange(0, i as int), v0.model_program),
            decreases v0.models.len() - i,
        {
            device.push(
                Command::DrawMesh { mesh: self.models[i], program: self.model_shader_program.id() },
            );
            i = i + 1;
            proof {
                assert(device@.log =~= start + models_log(
                    v0.models.subrange(0, i as int),
                    v0.model_program,
                ));
            }
        }
        proof {
            assert(v0.models.subrange(0, i as int) =~= v0.models);
        }
        device.push(Command::DepthFunction { func: DepthFunc::LessEqual });
        device.push(Command::DrawMesh { mesh: self.skybox, program: self.skybox_shader_program.id() });
        device.push(Command::DepthFunction { func: DepthFunc::Less });
        let r = self.render_pipeline.draw(device);
        proof {
            assert(device@.log =~= d0.log + scene_log(v0));
        }
        r
    }

    /// Resizes the pipeline (see [`View3DRenderPipeline::set_size`]).
    pub fn set_size(&mut self, device: &mut Device, width: i32, height: i32) -> (r: Result<
        (),
        GlError,
    >)
        requires
            old(self)@.pipeline.wf(old(device)@),
        ensures
            (r is Ok) == pipeline_resize_ok(old(device)@, width, height),
            pipeline_resize_step(
                old(device)@,
                old(self)@.pipeline,
                width,
                height,
                final(device)@,
                final(self)@.pipeline,
            ),
            final(self)@ == (SceneView { pipeline: final(self)@.pipeline, ..old(self)@ }),
            r matches Err(e) ==> e is AllocationFailed,
    {
        self.render_pipeline.set_size(device, width, height)
    }
}

} // verus!
