use vstd::prelude::*;

use crate::device::{
    fresh, retired, spent, Command, CommandView, Device, DeviceView, Limits, PixelFormat,
    RenderBuffer, Sampling, Texture,
};
use crate::error::GlError;
use crate::shader_program::ShaderProgram;

verus! {

/// The colour texture a framebuffer allocates for each of its outputs:
/// RGBA16F, so that values above one survive, sampled as the target's role
/// asks.
pub open spec fn color_texture(id: int, width: i32, height: i32, s: Sampling) -> Texture {
    Texture {
        id: id as usize,
        width,
        height,
        format: PixelFormat::Rgba16f,
        filter: s.filter,
        wrap: s.wrap,
    }
}

/// Whether the backend accepts a framebuffer with `n` colour outputs and,
/// if `depth`, a depth/stencil image.
pub open spec fn complete(l: Limits, n: nat, depth: bool) -> bool {
    n <= l.max_draw_buffers && (n > 0 || depth || l.allow_empty_target)
}

/// The number of handles a framebuffer uses: its own, one per colour
/// texture, and one for the depth/stencil image.
pub open spec fn span(n: nat, depth: bool) -> int {
    1 + n + if depth {
        1int
    } else {
        0int
    }
}

pub open spec fn handles(s: Seq<Texture>) -> Seq<usize> {
    s.map_values(|t: Texture| t.id)
}

/// The abstract content of a [`Framebuffer`]: its handle and size, its
/// colour outputs in attachment order, its depth/stencil image, and the
/// textures it samples when it draws its quad.
pub struct FramebufferView {
    pub id: usize,
    pub width: i32,
    pub height: i32,
    pub colors: Seq<Texture>,
    pub depth: Option<RenderBuffer>,
    pub inputs: Seq<Texture>,
    pub sampling: Sampling,
}

impl FramebufferView {
    pub open spec fn has_depth(self) -> bool {
        self.depth is Some
    }

    pub open spec fn span(self) -> int {
        span(self.colors.len(), self.has_depth())
    }

    /// One past the last handle this framebuffer owns.
    pub open spec fn end(self) -> int {
        self.id + self.span()
    }

    /// Every image has the framebuffer's size, and the handles run in
    /// creation order: the framebuffer, its colour textures, its depth image.
    pub open spec fn shaped(self) -> bool {
        &&& self.end() <= usize::MAX
        &&& forall|i: int|
            0 <= i < self.colors.len() ==> self.colors[i] == color_texture(
                self.id + 1 + i,
                self.width,
                self.height,
                self.sampling,
            )
        &&& self.depth matches Some(rb) ==> rb == (RenderBuffer {
            id: (self.id + 1 + self.colors.len()) as usize,
            width: self.width,
            height: self.height,
        })
    }

    pub open spec fn with_inputs(self, inputs: Seq<Texture>) -> FramebufferView {
        FramebufferView { inputs, ..self }
    }

    pub open spec fn wf(self, d: DeviceView) -> bool {
        &&& self.shaped()
        &&& self.end() <= d.live.len()
        &&& forall|x: int| self.id <= x < self.end() ==> #[trigger] d.live[x]
        &&& d.size_ok(self.width, self.height)
        &&& complete(d.limits, self.colors.len(), self.has_depth())
    }
}

/// The framebuffer that allocation produces.
pub open spec fn built(
    id: int,
    width: i32,
    height: i32,
    n: nat,
    depth: bool,
    s: Sampling,
    inputs: Seq<Texture>,
) -> FramebufferView {
    FramebufferView {
        id: id as usize,
        width,
        height,
        colors: Seq::new(n, |i: int| color_texture(id + 1 + i, width, height, s)),
        depth: if depth {
            Some(RenderBuffer { id: (id + 1 + n) as usize, width, height })
        } else {
            None
        },
        inputs,
        sampling: s,
    }
}

/// A freshly built framebuffer is well formed on a device whose handles
/// past `prefix` are the ones it was given.
pub proof fn lemma_built_wf(
    d: DeviceView,
    prefix: Seq<bool>,
    width: i32,
    height: i32,
    n: nat,
    depth: bool,
    s: Sampling,
    inputs: Seq<Texture>,
)
    requires
        d.live == prefix + fresh(span(n, depth) as nat),
        prefix.len() + span(n, depth) <= usize::MAX,
        d.size_ok(width, height),
        complete(d.limits, n, depth),
    ensures
        built(prefix.len() as int, width, height, n, depth, s, inputs).wf(d),
{
    let v = built(prefix.len() as int, width, height, n, depth, s, inputs);
    assert forall|x: int| v.id <= x < v.end() implies #[trigger] d.live[x] by {
        assert(d.live[x] == fresh(span(n, depth) as nat)[x - prefix.len()]);
    }
}

/// A well-formed framebuffer stays well formed when other handles are
/// deleted and new ones issued.
pub proof fn lemma_wf_untouched(
    v: FramebufferView,
    d1: DeviceView,
    d2: DeviceView,
    lo: int,
    k: int,
    m: nat,
)
    requires
        v.wf(d1),
        d2.limits == d1.limits,
        d2.live == retired(d1.live, lo, k) + fresh(m),
        v.end() <= lo || lo + k <= v.id,
    ensures
        v.wf(d2),
{
    assert forall|x: int| v.id <= x < v.end() implies #[trigger] d2.live[x] by {
        assert(d1.live[x]);
        assert(d2.live[x] == retired(d1.live, lo, k)[x]);
    }
}

/// A resize to this size is accepted: the backend takes images of that
/// size and enough handles are left to recreate the framebuffer.
pub open spec fn resize_ok(d: DeviceView, v: FramebufferView, width: i32, height: i32) -> bool {
    d.size_ok(width, height) && d.has_room(v.span())
}

/// The framebuffer after a resize that issued its handles from `base`.
pub open spec fn resized(v: FramebufferView, base: int, width: i32, height: i32) -> FramebufferView {
    built(base, width, height, v.colors.len(), v.has_depth(), v.sampling, v.inputs)
}

/// Same size, same number of outputs and depth configuration, and images
/// of the same sizes.
pub open spec fn same_shape(a: FramebufferView, b: FramebufferView) -> bool {
    &&& a.width == b.width
    &&& a.height == b.height
    &&& a.colors.len() == b.colors.len()
    &&& a.has_depth() == b.has_depth()
    &&& forall|i: int|
        0 <= i < a.colors.len() ==> (#[trigger] a.colors[i]).width == b.colors[i].width
            && a.colors[i].height == b.colors[i].height
    &&& a.depth matches Some(x) ==> b.depth matches Some(y) && x.width == y.width && x.height
        == y.height
}

/// What a resize of `v0` on `d0` to `width` x `height` leaves: where it is
/// accepted, the framebuffer rebuilt from fresh handles and the commands
/// that delete the old images and create the new ones; where it is refused,
/// everything as it was.
pub open spec fn resize_step(
    d0: DeviceView,
    v0: FramebufferView,
    width: i32,
    height: i32,
    d1: DeviceView,
    v1: FramebufferView,
) -> bool {
    if resize_ok(d0, v0, width, height) {
        &&& v1 == resized(v0, d0.live.len() as int, width, height)
        &&& v1.wf(d1)
        &&& d1.live == retired(d0.live, v0.id as int, v0.span()) + fresh(v0.span() as nat)
        &&& d1.limits == d0.limits
        &&& d1.log == d0.log + release_log(v0) + build_log(
            d0.live.len() as int,
            width,
            height,
            v0.colors.len(),
            v0.has_depth(),
            v0.sampling,
        )
    } else {
        v1 == v0 && d1 == d0
    }
}

/// Resizing twice to the same size ends as resizing once: the second
/// resize is accepted exactly when the first was, and leaves images of the
/// same sizes with the same completeness verdict; a refused pair leaves
/// everything as it was. The one exception is a device that runs out of
/// handles between the two calls.
pub proof fn resize_idempotent(
    v0: FramebufferView,
    d0: DeviceView,
    v1: FramebufferView,
    d1: DeviceView,
    v2: FramebufferView,
    d2: DeviceView,
    width: i32,
    height: i32,
)
    requires
        v0.wf(d0),
        resize_step(d0, v0, width, height, d1, v1),
        resize_step(d1, v1, width, height, d2, v2),
        resize_ok(d0, v0, width, height) ==> d1.has_room(v0.span()),
    ensures
        resize_ok(d1, v1, width, height) == resize_ok(d0, v0, width, height),
        same_shape(v2, v1),
        complete(d2.limits, v2.colors.len(), v2.has_depth()) == complete(
            d1.limits,
            v1.colors.len(),
            v1.has_depth(),
        ),
        !resize_ok(d0, v0, width, height) ==> v2 == v0 && d2 == d0,
{
}

/// Both framebuffers have the same images and handles; only what they
/// sample may differ. Drawing, linking and unlinking keep a framebuffer so.
pub open spec fn same_images(a: FramebufferView, b: FramebufferView) -> bool {
    a.with_inputs(b.inputs) == b
}

/// Over any sequence of states, each reached from the one before without a
/// resize (by draws, links or unlinks), the link stays what it was at first.
pub proof fn link_kept_over_steps(s: Seq<FramebufferView>)
    requires
        forall|i: int| 0 < i < s.len() ==> same_images(#[trigger] s[i], s[i - 1]),
    ensures
        forall|i: int| 0 <= i < s.len() ==> (#[trigger] s[i]).colors == s[0].colors,
    decreases s.len(),
{
    if s.len() > 1 {
        let p = s.drop_last();
        assert forall|i: int| 0 < i < p.len() implies same_images(#[trigger] p[i], p[i - 1]) by {
            assert(p[i] == s[i] && p[i - 1] == s[i - 1]);
        }
        link_kept_over_steps(p);
        assert forall|i: int| 0 <= i < s.len() implies (#[trigger] s[i]).colors == s[0].colors by {
            if i < s.len() - 1 {
                assert(p[i] == s[i]);
            } else {
                assert(same_images(s[i], s[i - 1]));
                assert(s[i].colors == s[i].with_inputs(s[i - 1].inputs).colors);
                assert(p[i - 1] == s[i - 1]);
            }
        }
    }
}

/// A framebuffer's link lists its colour textures in creation order: the
/// handles grow with the attachment index.
pub proof fn link_in_creation_order(v: FramebufferView)
    requires
        v.shaped(),
    ensures
        forall|i: int, j: int|
            0 <= i < j < v.colors.len() ==> (#[trigger] v.colors[i]).id < (#[trigger] v.colors[j]).id,
{
}

/// Commands that create and attach the first `n` colour textures.
pub open spec fn color_log(fb: int, width: i32, height: i32, n: nat, s: Sampling) -> Seq<
    CommandView,
>
    decreases n,
{
    if n == 0 {
        Seq::empty()
    } else {
        color_log(fb, width, height, (n - 1) as nat, s) + seq![
            CommandView::CreateTexture { texture: color_texture(fb + n, width, height, s) },
            CommandView::AttachColor {
                fb: fb as usize,
                slot: (n - 1) as usize,
                texture_id: (fb + n) as usize,
            },
        ]
    }
}

pub open spec fn depth_log(fb: int, width: i32, height: i32, n: nat, depth: bool) -> Seq<
    CommandView,
> {
    if depth {
        seq![
            CommandView::CreateRenderBuffer {
                render_buffer: RenderBuffer { id: (fb + 1 + n) as usize, width, height },
            },
            CommandView::AttachDepth { fb: fb as usize, render_buffer_id: (fb + 1 + n) as usize },
        ]
    } else {
        Seq::empty()
    }
}

/// Commands that allocate a framebuffer: the framebuffer, each colour
/// texture attached in order, the draw-buffer declaration, the depth image.
pub open spec fn build_log(
    fb: int,
    width: i32,
    height: i32,
    n: nat,
    depth: bool,
    s: Sampling,
) -> Seq<CommandView> {
    seq![CommandView::CreateFramebuffer { fb: fb as usize }] + color_log(fb, width, height, n, s)
        + seq![CommandView::DrawBuffers { fb: fb as usize, count: n as usize }] + depth_log(
        fb,
        width,
        height,
        n,
        depth,
    )
}

/// Commands that delete what a framebuffer owns.
pub open spec fn release_log(v: FramebufferView) -> Seq<CommandView> {
    Seq::new(v.colors.len(), |i: int| CommandView::DeleteTexture { id: v.colors[i].id }) + match v.depth {
        Some(rb) => seq![CommandView::DeleteRenderBuffer { id: rb.id }],
        None => Seq::empty(),
    } + seq![CommandView::DeleteFramebuffer { fb: v.id }]
}

/// Commands that route rendering into a framebuffer at its size, clearing
/// depth where it has a depth image.
pub open spec fn bind_log(v: FramebufferView) -> Seq<CommandView> {
    seq![
        CommandView::BindFramebuffer { target: Some(v.id) },
        CommandView::Viewport { width: v.width, height: v.height },
    ] + if v.has_depth() {
        seq![CommandView::ClearDepth]
    } else {
        Seq::empty()
    }
}

/// An off-screen render target: 0..n colour textures, declared as draw
/// buffers in creation order, an optional depth/stencil image, and the list
/// of textures (from other targets) that its full-screen quad samples.
pub struct Framebuffer {
    id: usize,
    textures: Vec<Texture>,
    render_buffer: Option<RenderBuffer>,
    inputs: Vec<Texture>,
    width: i32,
    height: i32,
    sampling: Sampling,
}

impl View for Framebuffer {
    type V = FramebufferView;

    closed spec fn view(&self) -> FramebufferView {
        FramebufferView {
            id: self.id,
            width: self.width,
            height: self.height,
            colors: self.textures@,
            depth: self.render_buffer,
            inputs: self.inputs@,
            sampling: self.sampling,
        }
    }
}

/// Checks that every texture is still alive and returns their handles.
fn live_handles(device: &Device, textures: &Vec<Texture>) -> (r: Result<Vec<usize>, GlError>)
    ensures
        (r is Ok) == (forall|i: int|
            0 <= i < textures@.len() ==> device@.is_live(#[trigger] textures@[i].id as int)),
        r matches Ok(v) ==> v@ == handles(textures@),
        r matches Err(e) ==> exists|i: int|
            0 <= i < textures@.len() && !device@.is_live(textures@[i].id as int) && e
                == GlError::StaleTexture(textures@[i].id),
{
    let mut v: Vec<usize> = Vec::new();
    let mut i: usize = 0;
    while i < textures.len()
        invariant
            0 <= i <= textures@.len(),
            v@ == handles(textures@.subrange(0, i as int)),
            forall|k: int| 0 <= k < i ==> device@.is_live(#[trigger] textures@[k].id as int),
        decreases textures@.len() - i,
    {
        let t = textures[i];
        if !device.is_live(t.id) {
            return Err(GlError::StaleTexture(t.id));
        }
        v.push(t.id);
        i = i + 1;
        proof {
            assert(handles(textures@.subrange(0, i as int)) =~= handles(
                textures@.subrange(0, (i - 1) as int),
            ).push(t.id));
        }
    }
    proof {
        assert(textures@.subrange(0, i as int) =~= textures@);
    }
    Ok(v)
}

impl Framebuffer {
    /// Allocates the framebuffer, its colour textures and depth image,
    /// keeping `inputs` as its sampled textures.
    fn build(
        device: &mut Device,
        width: i32,
        height: i32,
        n: usize,
        has_rb: bool,
        sampling: Sampling,
        inputs: Vec<Texture>,
    ) -> (fb: Framebuffer)
        requires
            old(device)@.size_ok(width, height),
            old(device)@.has_room(span(n as nat, has_rb)),
        ensures
            fb@ == built(
                old(device)@.live.len() as int,
                width,
                height,
                n as nat,
                has_rb,
                sampling,
                inputs@,
            ),
            final(device)@.live == old(device)@.live + fresh(span(n as nat, has_rb) as nat),
            final(device)@.limits == old(device)@.limits,
            final(device)@.log == old(device)@.log + build_log(
                old(device)@.live.len() as int,
                width,
                height,
                n as nat,
                has_rb,
                sampling,
            ),
    {
        let ghost base = old(device)@.live.len() as int;
        let id = device.issue();
        device.push(Command::CreateFramebuffer { fb: id });
        let ghost start = device@.log;
        let mut textures: Vec<Texture> = Vec::new();
        let mut i: usize = 0;
        while i < n
            invariant
                0 <= i <= n,
                id == base,
                base == old(device)@.live.len(),
                base + span(n as nat, has_rb) <= usize::MAX,
                device@.size_ok(width, height),
                device@.live == old(device)@.live + fresh((i + 1) as nat),
                device@.limits == old(device)@.limits,
                device@.log == start + color_log(base, width, height, i as nat, sampling),
                textures@ == Seq::new(
                    i as nat,
                    |k: int| color_texture(base + 1 + k, width, height, sampling),
                ),
            decreases n - i,
        {
            match device.allocate_texture(
                width,
                height,
                PixelFormat::Rgba16f,
                sampling.filter,
                sampling.wrap,
            ) {
                Ok(t) => {
                    device.push(Command::AttachColor { fb: id, slot: i, texture_id: t.id });
                    textures.push(t);
                },
                Err(_) => {
                    proof {
                        assert(false);
                    }
                },
            }
            i = i + 1;
            proof {
                assert(device@.live =~= old(device)@.live + fresh((i + 1) as nat));
                let a = CommandView::CreateTexture {
                    texture: color_texture(base + i, width, height, sampling),
                };
                let b = CommandView::AttachColor {
                    fb: base as usize,
                    slot: (i - 1) as usize,
                    texture_id: (base + i) as usize,
                };
                assert(color_log(base, width, height, i as nat, sampling) == color_log(
                    base,
                    width,
                    height,
                    (i - 1) as nat,
                    sampling,
                ) + seq![a, b]);
                assert(device@.log =~= start + color_log(base, width, height, i as nat, sampling));
                assert(textures@ =~= Seq::new(
                    i as nat,
                    |k: int| color_texture(base + 1 + k, width, height, sampling),
                ));
            }
        }
        device.push(Command::DrawBuffers { fb: id, count: n });
        let render_buffer = if has_rb {
            let rid = device.issue();
            let rb = RenderBuffer { id: rid, width, height };
            device.push(Command::CreateRenderBuffer { render_buffer: rb });
            device.push(Command::AttachDepth { fb: id, render_buffer_id: rid });
            Some(rb)
        } else {
            None
        };
        proof {
            assert(device@.live =~= old(device)@.live + fresh(span(n as nat, has_rb) as nat));
            assert(device@.log =~= old(device)@.log + build_log(
                base,
                width,
                height,
                n as nat,
                has_rb,
                sampling,
            ));
        }
        Framebuffer { id, textures, render_buffer, inputs, width, height, sampling }
    }

    /// Queues the deletion of everything this framebuffer owns.
    fn release(&self, device: &mut Device)
        requires
            self@.shaped(),
            self@.end() <= old(device)@.live.len(),
        ensures
            final(device)@.live == retired(old(device)@.live, self@.id as int, self@.span()),
            final(device)@.limits == old(device)@.limits,
            final(device)@.log == old(device)@.log + release_log(self@),
    {
        let ghost v = self@;
        let ghost start = device@.log;
        let mut i: usize = 0;
        while i < self.textures.len()
            invariant
                v == self@,
                v.shaped(),
                v.end() <= old(device)@.live.len(),
                0 <= i <= v.colors.len(),
                device@.live == retired(old(device)@.live, v.id + 1, i as int),
                device@.limits == old(device)@.limits,
                device@.log == start + Seq::new(
                    i as nat,
                    |k: int| CommandView::DeleteTexture { id: v.colors[k].id },
                ),
            decreases v.colors.len() - i,
        {
            let t = self.textures[i];
            device.delete_texture(t);
            i = i + 1;
            proof {
                assert(device@.live =~= retired(old(device)@.live, v.id + 1, i as int));
                assert(device@.log =~= start + Seq::new(
                    i as nat,
                    |k: int| CommandView::DeleteTexture { id: v.colors[k].id },
                ));
            }
        }
        match self.render_buffer {
            Some(rb) => {
                device.push(Command::DeleteRenderBuffer { id: rb.id });
                device.retire(rb.id);
            },
            None => {},
        }
        device.push(Command::DeleteFramebuffer { fb: self.id });
        device.retire(self.id);
        proof {
            assert(device@.live =~= retired(old(device)@.live, v.id as int, v.span()));
            assert(device@.log =~= old(device)@.log + release_log(v));
        }
    }

    /// Creates a render target of the given size with `tex_num` colour
    /// outputs (RGBA16F, sampled as `sampling` says), declared as draw
    /// buffers in order, and a depth/stencil image if `has_rb`; then checks
    /// that the backend accepts the combination. The size is checked first,
    /// as the backend refuses such images before it sees the framebuffer.
    /// Nothing is left allocated on failure.
    pub fn new(
        device: &mut Device,
        width: i32,
        height: i32,
        tex_num: usize,
        has_rb: bool,
        sampling: Sampling,
    ) -> (r: Result<Framebuffer, GlError>)
        ensures
            (r is Ok) == (old(device)@.size_ok(width, height) && old(device)@.has_room(
                span(tex_num as nat, has_rb),
            ) && complete(old(device)@.limits, tex_num as nat, has_rb)),
            r matches Ok(fb) ==> {
                &&& fb@ == built(
                    old(device)@.live.len() as int,
                    width,
                    height,
                    tex_num as nat,
                    has_rb,
                    sampling,
                    Seq::empty(),
                )
                &&& fb@.wf(final(device)@)
                &&& final(device)@.live == old(device)@.live + fresh(
                    span(tex_num as nat, has_rb) as nat,
                )
                &&& final(device)@.limits == old(device)@.limits
                &&& final(device)@.log == old(device)@.log + build_log(
                    old(device)@.live.len() as int,
                    width,
                    height,
                    tex_num as nat,
                    has_rb,
                    sampling,
                )
            },
            r matches Err(e) ==> {
                &&& !(old(device)@.size_ok(width, height) && old(device)@.has_room(
                    span(tex_num as nat, has_rb),
                )) ==> e is AllocationFailed && final(device)@ == old(device)@
                &&& (old(device)@.size_ok(width, height) && old(device)@.has_room(
                    span(tex_num as nat, has_rb),
                )) ==> {
                    &&& e == GlError::FramebufferNotComplete(old(device)@.live.len() as usize)
                    &&& final(device)@.live == old(device)@.live + spent(
                        span(tex_num as nat, has_rb) as nat,
                    )
                    &&& final(device)@.limits == old(device)@.limits
                    &&& final(device)@.log == old(device)@.log + build_log(
                        old(device)@.live.len() as int,
                        width,
                        height,
                        tex_num as nat,
                        has_rb,
                        sampling,
                    ) + release_log(
                        built(
                            old(device)@.live.len() as int,
                            width,
                            height,
                            tex_num as nat,
                            has_rb,
                            sampling,
                            Seq::empty(),
                        ),
                    )
                }
            },
    {
        let extra: usize = if has_rb {
            2
        } else {
            1
        };
        if !device.size_ok(width, height) || tex_num > usize::MAX - extra || !device.has_room(
            tex_num + extra,
        ) {
            return Err(GlError::AllocationFailed);
        }
        let ghost d0 = device@;
        let fb = Framebuffer::build(device, width, height, tex_num, has_rb, sampling, Vec::new());
        proof {
            assert(fb@.inputs =~= Seq::<Texture>::empty());
        }
        match fb.check_status(device) {
            Ok(()) => {
                proof {
                    lemma_built_wf(
                        device@,
                        d0.live,
                        width,
                        height,
                        tex_num as nat,
                        has_rb,
                        sampling,
                        Seq::empty(),
                    );
                }
                Ok(fb)
            },
            Err(e) => {
                fb.release(device);
                proof {
                    assert(device@.live =~= d0.live + spent(span(tex_num as nat, has_rb) as nat));
                }
                Err(e)
            },
        }
    }

    /// Whether the backend will accept this framebuffer's attachment
    /// combination, as predicted from the device's [`Limits`]: no more colour
    /// outputs than draw buffers, and at least one attachment unless the
    /// backend allows empty framebuffers. The executor of the commands still
    /// asks the real backend, which may refuse more.
    pub fn check_status(&self, device: &Device) -> (r: Result<(), GlError>)
        ensures
            (r is Ok) == complete(device@.limits, self@.colors.len(), self@.has_depth()),
            r matches Err(e) ==> e == GlError::FramebufferNotComplete(self@.id),
    {
        let limits = device.limits();
        let n = self.textures.len();
        if n <= limits.max_draw_buffers && (n > 0 || self.render_buffer.is_some()
            || limits.allow_empty_target) {
            Ok(())
        } else {
            Err(GlError::FramebufferNotComplete(self.id))
        }
    }

    /// Deletes every image and recreates the framebuffer at the new size
    /// under fresh handles, with the same number of colour outputs, the same
    /// depth configuration and the same sampled inputs. Handles obtained
    /// before the resize go stale: consumers must link again. The size is
    /// checked before anything is deleted, so a refused resize changes
    /// nothing.
    pub fn set_size(&mut self, device: &mut Device, width: i32, height: i32) -> (r: Result<
        (),
        GlError,
    >)
        requires
            old(self)@.wf(old(device)@),
        ensures
            (r is Ok) == resize_ok(old(device)@, old(self)@, width, height),
            resize_step(old(device)@, old(self)@, width, height, final(device)@, final(self)@),
            r matches Err(e) ==> e is AllocationFailed,
    {
        let n = self.textures.len();
        let has_rb = self.render_buffer.is_some();
        let extra: usize = if has_rb {
            2
        } else {
            1
        };
        if !device.size_ok(width, height) || n > usize::MAX - extra || !device.has_room(n + extra) {
            return Err(GlError::AllocationFailed);
        }
        let ghost d0 = device@;
        let ghost v0 = self@;
        self.release(device);
        let ghost d1 = device@;
        let mut inputs: Vec<Texture> = Vec::new();
        std::mem::swap(&mut inputs, &mut self.inputs);
        let sampling = self.sampling;
        *self = Framebuffer::build(device, width, height, n, has_rb, sampling, inputs);
        proof {
            assert(device@.log =~= d0.log + release_log(v0) + build_log(
                d0.live.len() as int,
                width,
                height,
                n as nat,
                has_rb,
                v0.sampling,
            ));
            lemma_built_wf(device@, d1.live, width, height, n as nat, has_rb, v0.sampling, v0.inputs);
        }
        Ok(())
    }

    /// The same as [`Framebuffer::set_size`].
    pub fn resize(&mut self, device: &mut Device, width: i32, height: i32) -> (r: Result<
        (),
        GlError,
    >)
        requires
            old(self)@.wf(old(device)@),
        ensures
            (r is Ok) == resize_ok(old(device)@, old(self)@, width, height),
            resize_step(old(device)@, old(self)@, width, height, final(device)@, final(self)@),
            r matches Err(e) ==> e is AllocationFailed,
    {
        self.set_size(device, width, height)
    }

    /// This framebuffer's colour textures, in attachment order, for linking
    /// into another target.
    pub fn get_link(&self) -> (r: Vec<Texture>)
        ensures
            r@ == self@.colors,
    {
        let mut r: Vec<Texture> = Vec::new();
        let mut i: usize = 0;
        while i < self.textures.len()
            invariant
                0 <= i <= self@.colors.len(),
                r@ == self@.colors.subrange(0, i as int),
            decreases self@.colors.len() - i,
        {
            r.push(self.textures[i]);
            i = i + 1;
            proof {
                assert(r@ =~= self@.colors.subrange(0, i as int));
            }
        }
        proof {
            assert(r@ =~= self@.colors);
        }
        r
    }

    /// Appends textures to the list this framebuffer samples; existing links
    /// are kept.
    pub fn link_to(&mut self, output: Vec<Texture>)
        ensures
            final(self)@ == old(self)@.with_inputs(old(self)@.inputs + output@),
    {
        let mut i: usize = 0;
        while i < output.len()
            invariant
                0 <= i <= output@.len(),
                self@ == old(self)@.with_inputs(old(self)@.inputs + output@.subrange(0, i as int)),
            decreases output@.len() - i,
        {
            self.inputs.push(output[i]);
            i = i + 1;
            proof {
                assert(self@.inputs =~= old(self)@.inputs + output@.subrange(0, i as int));
            }
        }
        proof {
            assert(output@.subrange(0, i as int) =~= output@);
        }
    }

    /// Appends another framebuffer's colour textures to the sampled list.
    pub fn link_to_fb(&mut self, framebuffer: &Framebuffer)
        ensures
            final(self)@ == old(self)@.with_inputs(old(self)@.inputs + framebuffer@.colors),
    {
        let link = framebuffer.get_link();
        self.link_to(link);
    }

    /// Appends one texture to the sampled list.
    pub fn link_push(&mut self, texture: Texture)
        ensures
            final(self)@ == old(self)@.with_inputs(old(self)@.inputs.push(texture)),
    {
        self.inputs.push(texture);
    }

    /// Empties the sampled list. No texture is deleted.
    pub fn unlink(&mut self)
        ensures
            final(self)@ == old(self)@.with_inputs(Seq::empty()),
    {
        self.inputs = Vec::new();
        proof {
            assert(self@ =~= old(self)@.with_inputs(Seq::empty()));
        }
    }

    /// The colour texture at attachment `index`, if there is one.
    pub fn get(&self, index: usize) -> (r: Option<Texture>)
        ensures
            r == if index < self@.colors.len() {
                Some(self@.colors[index as int])
            } else {
                None
            },
    {
        if index < self.textures.len() {
            Some(self.textures[index])
        } else {
            None
        }
    }

    /// The colour texture at attachment `index`.
    pub fn texture(&self, index: usize) -> (r: Texture)
        requires
            index < self@.colors.len(),
        ensures
            r == self@.colors[index as int],
    {
        self.textures[index]
    }

    /// Deletes the framebuffer and everything it owns.
    pub fn destroy(self, device: &mut Device)
        requires
            self@.wf(old(device)@),
        ensures
            final(device)@.live == retired(old(device)@.live, self@.id as int, self@.span()),
            final(device)@.limits == old(device)@.limits,
            final(device)@.log == old(device)@.log + release_log(self@),
    {
        self.release(device);
    }

    /// The number of colour outputs.
    pub fn len(&self) -> (r: usize)
        ensures
            r == self@.colors.len(),
    {
        self.textures.len()
    }

    pub fn id(&self) -> (r: usize)
        ensures
            r == self@.id,
    {
        self.id
    }

    pub fn get_size(&self) -> (r: (i32, i32))
        ensures
            r == (self@.width, self@.height),
    {
        (self.width, self.height)
    }

    /// Queues routing rendering into this framebuffer at its size; a target
    /// with a depth image clears depth, ready for the first write of a frame.
    pub fn bind(&self, device: &mut Device)
        ensures
            final(device)@.same_objects(old(device)@),
            final(device)@.log == old(device)@.log + bind_log(self@),
    {
        device.push(Command::BindFramebuffer { target: Some(self.id) });
        device.push(Command::Viewport { width: self.width, height: self.height });
        if self.render_buffer.is_some() {
            device.push(Command::ClearDepth);
        }
        proof {
            assert(device@.log =~= old(device)@.log + bind_log(self@));
        }
    }

    /// Queues routing rendering back to the window.
    pub fn unbind(device: &mut Device)
        ensures
            final(device)@.same_objects(old(device)@),
            final(device)@.log == old(device)@.log.push(
                CommandView::BindFramebuffer { target: None },
            ),
    {
        device.push(Command::BindFramebuffer { target: None });
    }

    /// Queues drawing the full-screen quad into this framebuffer with a
    /// program, sampling the linked textures in order. Refused, with nothing
    /// queued, when a linked texture has been deleted.
    pub fn draw(&self, device: &mut Device, shader_program: &ShaderProgram) -> (r: Result<
        (),
        GlError,
    >)
        ensures
            (r is Ok) == (forall|i: int|
                0 <= i < self@.inputs.len() ==> old(device)@.is_live(
                    #[trigger] self@.inputs[i].id as int,
                )),
            r is Ok ==> final(device)@.same_objects(old(device)@) && final(device)@.log == old(device)@.log.push(
                CommandView::DrawQuad {
                    target: Some(self@.id),
                    program: shader_program@.id,
                    inputs: handles(self@.inputs),
                },
            ),
            r matches Err(e) ==> final(device)@ == old(device)@ && exists|i: int|
                0 <= i < self@.inputs.len() && !old(device)@.is_live(self@.inputs[i].id as int)
                    && e == GlError::StaleTexture(self@.inputs[i].id),
    {
        let inputs = live_handles(device, &self.inputs)?;
        device.push(
            Command::DrawQuad { target: Some(self.id), program: shader_program.id(), inputs },
        );
        Ok(())
    }
}


/// The abstract content of a [`DefaultFramebuffer`].
pub struct ScreenView {
    pub width: i32,
    pub height: i32,
    pub inputs: Seq<Texture>,
}

/// The window surface as a render target: it owns no image, draws last in
/// a frame, and samples the textures linked into it.
pub struct DefaultFramebuffer {
    inputs: Vec<Texture>,
    width: i32,
    height: i32,
}

impl View for DefaultFramebuffer {
    type V = ScreenView;

    closed spec fn view(&self) -> ScreenView {
        ScreenView { width: self.width, height: self.height, inputs: self.inputs@ }
    }
}

impl DefaultFramebuffer {
    pub fn new(width: i32, height: i32) -> (r: DefaultFramebuffer)
        ensures
            r@ == (ScreenView { width, height, inputs: Seq::empty() }),
    {
        let r = DefaultFramebuffer { inputs: Vec::new(), width, height };
        proof {
            assert(r@ =~= (ScreenView { width, height, inputs: Seq::empty() }));
        }
        r
    }

    /// Queues routing rendering to the window at this size.
    pub fn bind(&self, device: &mut Device)
        ensures
            final(device)@.same_objects(old(device)@),
            final(device)@.log == old(device)@.log + seq![
                CommandView::BindFramebuffer { target: None },
                CommandView::Viewport { width: self@.width, height: self@.height },
            ],
    {
        device.push(Command::BindFramebuffer { target: None });
        device.push(Command::Viewport { width: self.width, height: self.height });
        proof {
            assert(device@.log =~= old(device)@.log + seq![
                CommandView::BindFramebuffer { target: None },
                CommandView::Viewport { width: self@.width, height: self@.height },
            ]);
        }
    }

    /// Queues drawing the full-screen quad to the window with a program,
    /// sampling the linked textures in order; refused, with nothing queued,
    /// when a linked texture has been deleted. Depth testing is expected to
    /// be off.
    pub fn draw(&self, device: &mut Device, shader_program: &ShaderProgram) -> (r: Result<
        (),
        GlError,
    >)
        ensures
            (r is Ok) == (forall|i: int|
                0 <= i < self@.inputs.len() ==> old(device)@.is_live(
                    #[trigger] self@.inputs[i].id as int,
                )),
            r is Ok ==> final(device)@.same_objects(old(device)@) && final(device)@.log == old(device)@.log.push(
                CommandView::DrawQuad {
                    target: None,
                    program: shader_program@.id,
                    inputs: handles(self@.inputs),
                },
            ),
            r matches Err(e) ==> final(device)@ == old(device)@ && exists|i: int|
                0 <= i < self@.inputs.len() && !old(device)@.is_live(self@.inputs[i].id as int)
                    && e == GlError::StaleTexture(self@.inputs[i].id),
    {
        let inputs = live_handles(device, &self.inputs)?;
        device.push(Command::DrawQuad { target: None, program: shader_program.id(), inputs });
        Ok(())
    }

    pub fn resize(&mut self, width: i32, height: i32)
        ensures
            final(self)@ == (ScreenView { width, height, inputs: old(self)@.inputs }),
    {
        self.width = width;
        self.height = height;
    }

    pub fn get_size(&self) -> (r: (i32, i32))
        ensures
            r == (self@.width, self@.height),
    {
        (self.width, self.height)
    }

    /// Appends textures to the sampled list; existing links are kept.
    pub fn link_to(&mut self, output: Vec<Texture>)
        ensures
            final(self)@ == (ScreenView { inputs: old(self)@.inputs + output@, ..old(self)@ }),
    {
        let mut i: usize = 0;
        while i < output.len()
            invariant
                0 <= i <= output@.len(),
                self@ == (ScreenView {
                    inputs: old(self)@.inputs + output@.subrange(0, i as int),
                    ..old(self)@
                }),
            decreases output@.len() - i,
        {
            self.inputs.push(output[i]);
            i = i + 1;
            proof {
                assert(self@.inputs =~= old(self)@.inputs + output@.subrange(0, i as int));
            }
        }
        proof {
            assert(output@.subrange(0, i as int) =~= output@);
        }
    }

    /// Appends one texture to the sampled list.
    pub fn link_push(&mut self, texture: Texture)
        ensures
            final(self)@ == (ScreenView { inputs: old(self)@.inputs.push(texture), ..old(self)@ }),
    {
        self.inputs.push(texture);
    }

    /// Empties the sampled list.
    pub fn unlink(&mut self)
        ensures
            final(self)@ == (ScreenView { inputs: Seq::empty(), ..old(self)@ }),
    {
        self.inputs = Vec::new();
        proof {
            assert(self@ =~= (ScreenView { inputs: Seq::empty(), ..old(self)@ }));
        }
    }
}

} // verus!
