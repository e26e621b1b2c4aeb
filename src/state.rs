use vstd::prelude::*;
use std::collections::HashMap;
use crate::scene::Shape;

verus! {

/// Pixel format of the framebuffer that the surfaces wrap.
#[derive(Clone, Copy, Debug, PartialEq, Eq, Structural)]
pub enum PixelFormat {
    /// Eight bits for each of red, green, blue and alpha.
    Rgba8,
}

/// Which corner of the render target holds the first row of pixels.
#[derive(Clone, Copy, Debug, PartialEq, Eq, Structural)]
pub enum SurfaceOrigin {
    TopLeft,
    BottomLeft,
}

/// Layout of a pixel as the canvas writes it.
#[derive(Clone, Copy, Debug, PartialEq, Eq, Structural)]
pub enum ColorType {
    Rgba8888,
}

/// Samples per pixel of the render target.
pub const SAMPLE_COUNT: u32 = 1;

/// Stencil bits per pixel of the render target.
pub const STENCIL_BITS: u32 = 8;

/// The framebuffer that was bound when the GPU context was made.
#[derive(Clone, Copy, Debug, PartialEq, Eq, Structural)]
pub struct FramebufferInfo {
    pub fboid: u32,
    pub format: PixelFormat,
    pub protected: bool,
}

/// What the library keeps of a GPU context: the framebuffer its surfaces wrap.
#[derive(Clone, Copy, Debug, PartialEq, Eq, Structural)]
pub struct GpuState {
    pub framebuffer_info: FramebufferInfo,
}

/// The description of a surface: the bound framebuffer at given pixel dimensions.
#[derive(Clone, Copy, Debug, PartialEq, Eq, Structural)]
pub struct RenderTarget {
    pub width: i32,
    pub height: i32,
    pub sample_count: u32,
    pub stencil_bits: u32,
    pub framebuffer_info: FramebufferInfo,
    pub origin: SurfaceOrigin,
    pub color_type: ColorType,
}

/// The surface that wraps framebuffer `fb` at `width` by `height` pixels.
pub open spec fn target_for(fb: FramebufferInfo, width: i32, height: i32) -> RenderTarget {
    RenderTarget {
        width,
        height,
        sample_count: SAMPLE_COUNT,
        stencil_bits: STENCIL_BITS,
        framebuffer_info: fb,
        origin: SurfaceOrigin::BottomLeft,
        color_type: ColorType::Rgba8888,
    }
}

/// Describes the framebuffer whose id the driver reported as bound.
/// A negative id names no framebuffer.
pub fn framebuffer_info(binding: i32) -> (r: Option<FramebufferInfo>)
    ensures
        r is None <==> binding < 0,
        r matches Some(f) ==> f == (FramebufferInfo {
            fboid: binding as u32,
            format: PixelFormat::Rgba8,
            protected: false,
        }),
{
    if binding < 0 {
        None
    } else {
        Some(FramebufferInfo { fboid: binding as u32, format: PixelFormat::Rgba8, protected: false })
    }
}

/// The GPU context's state, from the framebuffer id bound when it was made.
pub fn create_gpu_state(binding: i32) -> (r: Option<GpuState>)
    ensures
        r is None <==> binding < 0,
        r matches Some(g) ==> g.framebuffer_info == (FramebufferInfo {
            fboid: binding as u32,
            format: PixelFormat::Rgba8,
            protected: false,
        }),
{
    match framebuffer_info(binding) {
        Some(framebuffer_info) => Some(GpuState { framebuffer_info }),
        None => None,
    }
}

/// A new surface over the context's framebuffer; no existing surface changes.
pub fn create_surface(gpu_state: &GpuState, width: i32, height: i32) -> (t: RenderTarget)
    ensures
        t == target_for(gpu_state.framebuffer_info, width, height),
{
    RenderTarget {
        width,
        height,
        sample_count: SAMPLE_COUNT,
        stencil_bits: STENCIL_BITS,
        framebuffer_info: gpu_state.framebuffer_info,
        origin: SurfaceOrigin::BottomLeft,
        color_type: ColorType::Rgba8888,
    }
}

/// A GPU context together with the surface drawn on.
#[derive(Clone, Copy, Debug, PartialEq, Eq, Structural)]
pub struct RenderState {
    pub gpu_state: GpuState,
    pub surface: RenderTarget,
}

impl RenderState {
    /// The same context with its surface replaced by one of the given size.
    pub open spec fn resized(self, width: i32, height: i32) -> RenderState {
        RenderState {
            gpu_state: self.gpu_state,
            surface: target_for(self.gpu_state.framebuffer_info, width, height),
        }
    }

    /// A context over the framebuffer bound as `binding`, and a surface of the given size.
    pub fn new(binding: i32, width: i32, height: i32) -> (r: Option<RenderState>)
        ensures
            r is None <==> binding < 0,
            r matches Some(rs) ==> {
                &&& rs.gpu_state.framebuffer_info == (FramebufferInfo {
                    fboid: binding as u32,
                    format: PixelFormat::Rgba8,
                    protected: false,
                })
                &&& rs.surface == target_for(rs.gpu_state.framebuffer_info, width, height)
            },
    {
        match create_gpu_state(binding) {
            Some(gpu_state) => {
                let surface = create_surface(&gpu_state, width, height);
                Some(RenderState { gpu_state, surface })
            },
            None => None,
        }
    }
}

/// Everything kept between calls from the host: the render state, the shapes
/// by identifier, and the identifiers to draw, in paint order.
pub struct State {
    pub render_state: RenderState,
    pub shapes: HashMap<u64, Shape>,
    pub display_list: Vec<u64>,
}

impl State {
    /// A state over `render_state` with no shapes.
    pub fn new(render_state: RenderState) -> (s: State)
        ensures
            s.render_state == render_state,
            s.shapes@ == Map::<u64, Shape>::empty(),
            s.display_list@ == Seq::<u64>::empty(),
    {
        State { render_state, shapes: HashMap::new(), display_list: Vec::new() }
    }

    /// Replaces the surface, keeping the context and the scene.
    pub fn set_surface(&mut self, surface: RenderTarget)
        ensures
            final(self).render_state == (RenderState { surface, ..old(self).render_state }),
            final(self).shapes@ == old(self).shapes@,
            final(self).display_list@ == old(self).display_list@,
    {
        self.render_state.surface = surface;
    }
}

/// The state for a host whose framebuffer bound as `binding` is `width` by `height` pixels.
pub fn init(binding: i32, width: i32, height: i32) -> (r: Option<State>)
    ensures
        r is None <==> binding < 0,
        r matches Some(s) ==> {
            &&& s.render_state.gpu_state.framebuffer_info == (FramebufferInfo {
                fboid: binding as u32,
                format: PixelFormat::Rgba8,
                protected: false,
            })
            &&& s.render_state.surface == target_for(
                s.render_state.gpu_state.framebuffer_info,
                width,
                height,
            )
            &&& s.shapes@ == Map::<u64, Shape>::empty()
            &&& s.display_list@ == Seq::<u64>::empty()
        },
{
    match RenderState::new(binding, width, height) {
        Some(render_state) => Some(State::new(render_state)),
        None => None,
    }
}

/// Replaces the surface by one of the new size over the same context.
pub fn resize_surface(state: &mut State, width: i32, height: i32)
    ensures
        final(state).render_state == old(state).render_state.resized(width, height),
        final(state).shapes@ == old(state).shapes@,
        final(state).display_list@ == old(state).display_list@,
{
    let surface = create_surface(&state.render_state.gpu_state, width, height);
    state.set_surface(surface);
}

/// After a resize the surface has the requested size and the context is the
/// one from before; drawing does not change either.
pub proof fn lemma_resize_keeps_context(rs: RenderState, width: i32, height: i32)
    ensures
        rs.resized(width, height).surface.width == width,
        rs.resized(width, height).surface.height == height,
        rs.resized(width, height).gpu_state == rs.gpu_state,
        rs.resized(width, height).surface.framebuffer_info == rs.gpu_state.framebuffer_info,
{
}

} // verus!
