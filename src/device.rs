use vstd::prelude::*;

use crate::error::{GlError, ShaderCompileType};

verus! {

/// Depth comparison: a fragment passes when its depth is less than (or
/// equal to) the stored one.
#[derive(Clone, Copy, Debug, PartialEq, Eq, Structural)]
pub enum DepthFunc {
    Less,
    LessEqual,
}

/// Pixel layout of an image.
#[derive(Clone, Copy, Debug, PartialEq, Eq, Structural)]
pub enum PixelFormat {
    Rgb8,
    Rgba8,
    Rgba16f,
    Depth24Stencil8,
    Depth32f,
}

/// Sampling filter of an image.
#[derive(Clone, Copy, Debug, PartialEq, Eq, Structural)]
pub enum FilterMode {
    Nearest,
    Linear,
}

/// Behaviour of texture coordinates outside `[0, 1]`.
#[derive(Clone, Copy, Debug, PartialEq, Eq, Structural)]
pub enum WrapMode {
    Repeat,
    ClampToEdge,
}

/// How a texture is sampled: its filter and its wrap mode.
#[derive(Clone, Copy, Debug, PartialEq, Eq, Structural)]
pub struct Sampling {
    pub filter: FilterMode,
    pub wrap: WrapMode,
}

/// A two-dimensional image that one render target writes and any number of
/// others may sample. The value is a handle: copying it shares the image.
#[derive(Clone, Copy, Debug, PartialEq, Eq, Structural)]
pub struct Texture {
    pub id: usize,
    pub width: i32,
    pub height: i32,
    pub format: PixelFormat,
    pub filter: FilterMode,
    pub wrap: WrapMode,
}

/// A combined depth/stencil image (depth 24 bits, stencil 8 bits).
#[derive(Clone, Copy, Debug, PartialEq, Eq, Structural)]
pub struct RenderBuffer {
    pub id: usize,
    pub width: i32,
    pub height: i32,
}

/// What the backend accepts: the number of colour outputs a framebuffer may
/// declare, the largest image side, and whether a framebuffer without any
/// attachment counts as complete.
#[derive(Clone, Copy, Debug, PartialEq, Eq, Structural)]
pub struct Limits {
    pub max_draw_buffers: usize,
    pub max_size: i32,
    pub allow_empty_target: bool,
}

/// One source file of a shader program.
#[derive(Debug, PartialEq, Eq)]
pub struct ShaderStage {
    pub kind: ShaderCompileType,
    pub path: String,
}

/// A backend operation, in the order in which the backend must perform it.
/// Every handle is one issued by a [`Device`].
#[derive(Debug, PartialEq, Eq)]
pub enum Command {
    CreateFramebuffer { fb: usize },
    DeleteFramebuffer { fb: usize },
    CreateTexture { texture: Texture },
    DeleteTexture { id: usize },
    CreateRenderBuffer { render_buffer: RenderBuffer },
    DeleteRenderBuffer { id: usize },
    /// Attach a texture to colour output `slot` of a framebuffer.
    AttachColor { fb: usize, slot: usize, texture_id: usize },
    AttachDepth { fb: usize, render_buffer_id: usize },
    /// Declare colour outputs `0..count` of a framebuffer as the draw buffers.
    DrawBuffers { fb: usize, count: usize },
    /// Route rendering into a framebuffer, or into the window when `None`.
    BindFramebuffer { target: Option<usize> },
    Viewport { width: i32, height: i32 },
    ClearDepth,
    DepthTest { enabled: bool },
    DepthFunction { func: DepthFunc },
    /// Compile the stages in order and link them into one program.
    CompileProgram { program: usize, stages: Vec<ShaderStage> },
    UseProgram { program: usize },
    SetBool { program: usize, name: String, value: bool },
    SetInt { program: usize, name: String, number: i32 },
    CreateUniformBuffer { buffer: usize, size: u32 },
    /// Bind the named uniform block of a program to a uniform buffer.
    BindUniformBlock { program: usize, block: String, buffer: usize },
    /// Draw the full-screen quad into a framebuffer (or the window when
    /// `None`) with a program, sampling the textures in order.
    DrawQuad { target: Option<usize>, program: usize, inputs: Vec<usize> },
    /// Draw a mesh of the caller's (geometry is not this library's
    /// concern) with a program into the bound target.
    DrawMesh { mesh: usize, program: usize },
}

/// The mathematical content of a [`Command`].
pub enum CommandView {
    CreateFramebuffer { fb: usize },
    DeleteFramebuffer { fb: usize },
    CreateTexture { texture: Texture },
    DeleteTexture { id: usize },
    CreateRenderBuffer { render_buffer: RenderBuffer },
    DeleteRenderBuffer { id: usize },
    AttachColor { fb: usize, slot: usize, texture_id: usize },
    AttachDepth { fb: usize, render_buffer_id: usize },
    DrawBuffers { fb: usize, count: usize },
    BindFramebuffer { target: Option<usize> },
    Viewport { width: i32, height: i32 },
    ClearDepth,
    DepthTest { enabled: bool },
    DepthFunction { func: DepthFunc },
    CompileProgram { program: usize, stages: Seq<(ShaderCompileType, Seq<char>)> },
    UseProgram { program: usize },
    SetBool { program: usize, name: Seq<char>, value: bool },
    SetInt { program: usize, name: Seq<char>, number: i32 },
    CreateUniformBuffer { buffer: usize, size: u32 },
    BindUniformBlock { program: usize, block: Seq<char>, buffer: usize },
    DrawQuad { target: Option<usize>, program: usize, inputs: Seq<usize> },
    DrawMesh { mesh: usize, program: usize },
}

pub open spec fn stage_view(s: ShaderStage) -> (ShaderCompileType, Seq<char>) {
    (s.kind, s.path@)
}

impl View for Command {
    type V = CommandView;

    open spec fn view(&self) -> CommandView {
        match self {
            Command::CreateFramebuffer { fb } => CommandView::CreateFramebuffer { fb: *fb },
            Command::DeleteFramebuffer { fb } => CommandView::DeleteFramebuffer { fb: *fb },
            Command::CreateTexture { texture } => CommandView::CreateTexture { texture: *texture },
            Command::DeleteTexture { id } => CommandView::DeleteTexture { id: *id },
            Command::CreateRenderBuffer { render_buffer } => CommandView::CreateRenderBuffer {
                render_buffer: *render_buffer,
            },
            Command::DeleteRenderBuffer { id } => CommandView::DeleteRenderBuffer { id: *id },
            Command::AttachColor { fb, slot, texture_id } => CommandView::AttachColor {
                fb: *fb,
                slot: *slot,
                texture_id: *texture_id,
            },
            Command::AttachDepth { fb, render_buffer_id } => CommandView::AttachDepth {
                fb: *fb,
                render_buffer_id: *render_buffer_id,
            },
            Command::DrawBuffers { fb, count } => CommandView::DrawBuffers {
                fb: *fb,
                count: *count,
            },
            Command::BindFramebuffer { target } => CommandView::BindFramebuffer { target: *target },
            Command::Viewport { width, height } => CommandView::Viewport {
                width: *width,
                height: *height,
            },
            Command::ClearDepth => CommandView::ClearDepth,
            Command::DepthTest { enabled } => CommandView::DepthTest { enabled: *enabled },
            Command::DepthFunction { func } => CommandView::DepthFunction { func: *func },
            Command::CompileProgram { program, stages } => CommandView::CompileProgram {
                program: *program,
                stages: stages@.map_values(|s: ShaderStage| stage_view(s)),
            },
            Command::UseProgram { program } => CommandView::UseProgram { program: *program },
            Command::SetBool { program, name, value } => CommandView::SetBool {
                program: *program,
                name: name@,
                value: *value,
            },
            Command::SetInt { program, name, number } => CommandView::SetInt {
                program: *program,
                name: name@,
                number: *number,
            },
            Command::CreateUniformBuffer { buffer, size } => CommandView::CreateUniformBuffer {
                buffer: *buffer,
                size: *size,
            },
            Command::BindUniformBlock { program, block, buffer } => CommandView::BindUniformBlock {
                program: *program,
                block: block@,
                buffer: *buffer,
            },
            Command::DrawQuad { target, program, inputs } => CommandView::DrawQuad {
                target: *target,
                program: *program,
                inputs: inputs@,
            },
            Command::DrawMesh { mesh, program } => CommandView::DrawMesh {
                mesh: *mesh,
                program: *program,
            },
        }
    }
}

/// The abstract state of a [`Device`]: which handles were issued and are
/// still alive (handle `i` is entry `i`), the backend limits, and the
/// commands not yet handed to the backend.
pub struct DeviceView {
    pub live: Seq<bool>,
    pub limits: Limits,
    pub log: Seq<CommandView>,
}

impl DeviceView {
    pub open spec fn is_live(self, id: int) -> bool {
        0 <= id < self.live.len() && self.live[id]
    }

    /// `k` more handles can still be issued.
    pub open spec fn has_room(self, k: int) -> bool {
        self.live.len() + k <= usize::MAX
    }

    /// An image of this size is accepted by the backend.
    pub open spec fn size_ok(self, width: i32, height: i32) -> bool {
        0 < width <= self.limits.max_size && 0 < height <= self.limits.max_size
    }

    /// Same handles and limits; only the log may differ.
    pub open spec fn same_objects(self, other: DeviceView) -> bool {
        self.live == other.live && self.limits == other.limits
    }
}

/// `k` freshly issued handles, all alive.
pub open spec fn fresh(k: nat) -> Seq<bool> {
    Seq::new(k, |i: int| true)
}

/// `k` handles that were issued and deleted again.
pub open spec fn spent(k: nat) -> Seq<bool> {
    Seq::new(k, |i: int| false)
}

/// `live` with the handles in `[lo, lo + k)` deleted.
pub open spec fn retired(live: Seq<bool>, lo: int, k: int) -> Seq<bool> {
    Seq::new(live.len(), |x: int| if lo <= x < lo + k { false } else { live[x] })
}

/// The rendering backend as the library sees it: it issues handles (never
/// reusing one, so that a handle kept across a resize cannot alias a newer
/// image), remembers which are alive, and queues the commands that the
/// caller must hand to the real backend, in order.
pub struct Device {
    live: Vec<bool>,
    limits: Limits,
    log: Vec<Command>,
}

impl View for Device {
    type V = DeviceView;

    closed spec fn view(&self) -> DeviceView {
        DeviceView {
            live: self.live@,
            limits: self.limits,
            log: self.log@.map_values(|c: Command| c@),
        }
    }
}

impl Device {
    pub fn new(limits: Limits) -> (d: Device)
        ensures
            d@.live == Seq::<bool>::empty(),
            d@.limits == limits,
            d@.log == Seq::<CommandView>::empty(),
    {
        let d = Device { live: Vec::new(), limits, log: Vec::new() };
        proof {
            assert(d@.log =~= Seq::<CommandView>::empty());
        }
        d
    }

    pub fn limits(&self) -> (r: Limits)
        ensures
            r == self@.limits,
    {
        self.limits
    }

    pub fn is_live(&self, id: usize) -> (r: bool)
        ensures
            r == self@.is_live(id as int),
    {
        id < self.live.len() && self.live[id]
    }

    /// The number of handles issued so far.
    pub fn issued(&self) -> (r: usize)
        ensures
            r == self@.live.len(),
    {
        self.live.len()
    }

    pub fn has_room(&self, k: usize) -> (r: bool)
        ensures
            r == self@.has_room(k as int),
    {
        k <= usize::MAX - self.live.len()
    }

    pub fn size_ok(&self, width: i32, height: i32) -> (r: bool)
        ensures
            r == self@.size_ok(width, height),
    {
        0 < width && width <= self.limits.max_size && 0 < height && height <= self.limits.max_size
    }

    /// Hands over the queued commands, oldest first, and empties the queue.
    pub fn take_commands(&mut self) -> (r: Vec<Command>)
        ensures
            r@.map_values(|c: Command| c@) == old(self)@.log,
            final(self)@.log == Seq::<CommandView>::empty(),
            final(self)@.same_objects(old(self)@),
    {
        let mut r = Vec::new();
        std::mem::swap(&mut r, &mut self.log);
        proof {
            assert(self@.log =~= Seq::<CommandView>::empty());
        }
        r
    }

    pub(crate) fn issue(&mut self) -> (id: usize)
        requires
            old(self)@.has_room(1),
        ensures
            id == old(self)@.live.len(),
            final(self)@.live == old(self)@.live.push(true),
            final(self)@.limits == old(self)@.limits,
            final(self)@.log == old(self)@.log,
    {
        let id = self.live.len();
        self.live.push(true);
        id
    }

    pub(crate) fn retire(&mut self, id: usize)
        requires
            id < old(self)@.live.len(),
        ensures
            final(self)@.live == old(self)@.live.update(id as int, false),
            final(self)@.limits == old(self)@.limits,
            final(self)@.log == old(self)@.log,
    {
        self.live.set(id, false);
    }

    pub(crate) fn push(&mut self, c: Command)
        ensures
            final(self)@.log == old(self)@.log.push(c@),
            final(self)@.same_objects(old(self)@),
    {
        self.log.push(c);
        proof {
            assert(self@.log =~= old(self)@.log.push(c@));
        }
    }

    /// Creates an image of the given size and sampling parameters.
    pub fn allocate_texture(
        &mut self,
        width: i32,
        height: i32,
        format: PixelFormat,
        filter: FilterMode,
        wrap: WrapMode,
    ) -> (r: Result<Texture, GlError>)
        ensures
            (r is Ok) == (old(self)@.size_ok(width, height) && old(self)@.has_room(1)),
            r matches Ok(t) ==> {
                &&& t == (Texture { id: t.id, width, height, format, filter, wrap })
                &&& t.id == old(self)@.live.len()
                &&& final(self)@.live == old(self)@.live.push(true)
                &&& final(self)@.limits == old(self)@.limits
                &&& final(self)@.log == old(self)@.log.push(CommandView::CreateTexture { texture: t })
            },
            r matches Err(e) ==> e is AllocationFailed && final(self)@ == old(self)@,
    {
        if !self.size_ok(width, height) || !self.has_room(1) {
            return Err(GlError::AllocationFailed);
        }
        let id = self.issue();
        let t = Texture { id, width, height, format, filter, wrap };
        self.push(Command::CreateTexture { texture: t });
        Ok(t)
    }

    /// Deletes an image. A copy of its handle that is still linked somewhere
    /// becomes stale: drawing with it is refused.
    pub fn delete_texture(&mut self, t: Texture)
        requires
            (t.id as int) < old(self)@.live.len(),
        ensures
            final(self)@.live == old(self)@.live.update(t.id as int, false),
            final(self)@.limits == old(self)@.limits,
            final(self)@.log == old(self)@.log.push(CommandView::DeleteTexture { id: t.id }),
    {
        self.push(Command::DeleteTexture { id: t.id });
        self.retire(t.id);
    }
}

} // verus!
