//! The surface's lifecycle: negotiated format, current size, the
//! configuration last applied to the swapchain, and the plan of each frame.
use vstd::prelude::*;

use wgpu::TextureFormat;

use crate::axis::{axis_draw_commands, axis_vertices, AxisRenderer};
use crate::pass::{count_draws, PassCommand, RenderPass};
use crate::pipeline::opaque_target;
use crate::texture::{srgb_variant, srgb_view_format};

verus! {

/// Frames that may be queued ahead of the display: one frame of CPU/GPU
/// overlap while bounding input-to-photon latency.
pub const MAX_FRAME_LATENCY: u32 = 2;

/// A size in physical pixels.
#[derive(Clone, Copy, Debug, PartialEq, Eq, Structural)]
pub struct SurfaceSize {
    pub width: u32,
    pub height: u32,
}

impl SurfaceSize {
    pub fn new(width: u32, height: u32) -> (r: SurfaceSize)
        ensures
            r.width == width,
            r.height == height,
    {
        SurfaceSize { width, height }
    }

    /// Neither side is zero, so a swapchain of this size can exist.
    pub open spec fn has_area(self) -> bool {
        self.width > 0 && self.height > 0
    }
}

/// When a finished frame becomes visible.
#[derive(Clone, Copy, Debug, PartialEq, Eq, Structural)]
pub enum PresentMode {
    AutoVsync,
    AutoNoVsync,
    Fifo,
    FifoRelaxed,
    Immediate,
    Mailbox,
}

/// How the surface's alpha is composited with the rest of the screen.
#[derive(Clone, Copy, Debug, PartialEq, Eq, Structural)]
pub enum AlphaMode {
    Auto,
    Opaque,
    PreMultiplied,
    PostMultiplied,
    Inherit,
}

/// An RGBA color, eight bits per channel.
#[derive(Clone, Copy, Debug, PartialEq, Eq, Structural)]
pub struct Color {
    pub r: u8,
    pub g: u8,
    pub b: u8,
    pub a: u8,
}

/// The color every frame is cleared to: opaque blue.
pub open spec fn background() -> Color {
    Color { r: 0, g: 0, b: 255, a: 255 }
}

/// What is applied to the swapchain: the surface is used as a render target,
/// views of it may take `view_format`.
#[derive(Clone, Copy, Debug)]
pub struct SurfaceConfig {
    pub render_attachment: bool,
    pub format: TextureFormat,
    pub view_format: TextureFormat,
    pub alpha_mode: AlphaMode,
    pub width: u32,
    pub height: u32,
    pub max_frame_latency: u32,
    pub present_mode: PresentMode,
}

/// The configuration for a swapchain of `size` in `format`.
pub open spec fn config_for(size: SurfaceSize, format: TextureFormat) -> SurfaceConfig {
    SurfaceConfig {
        render_attachment: true,
        format,
        view_format: srgb_variant(format),
        alpha_mode: AlphaMode::Auto,
        width: size.width,
        height: size.height,
        max_frame_latency: MAX_FRAME_LATENCY,
        present_mode: PresentMode::AutoVsync,
    }
}

/// What one frame does, in order: acquire a `width` x `height` image, view it
/// in `view_format`, open one pass that clears it to `clear`, record
/// `commands`, close the pass, submit it as one command buffer, present.
#[derive(Debug)]
pub struct FramePlan {
    pub width: u32,
    pub height: u32,
    pub view_format: TextureFormat,
    pub clear: Color,
    pub commands: Vec<PassCommand>,
}

/// Why a frame cannot be planned.
#[derive(Clone, Copy, Debug, PartialEq, Eq, Structural)]
pub enum RenderError {
    /// No configuration has been applied to the swapchain yet.
    NotConfigured,
}

/// Why a surface state cannot be created.
#[derive(Clone, Copy, Debug, PartialEq, Eq, Structural)]
pub enum StateError {
    /// The surface reports no format it can present.
    NoSurfaceFormat,
}

/// The abstract state of a surface.
pub struct SurfaceModel {
    /// The window's last known size.
    pub size: SurfaceSize,
    /// The format negotiated at creation.
    pub format: TextureFormat,
    /// The configuration last applied to the swapchain, if any.
    pub applied: Option<SurfaceConfig>,
}

impl SurfaceModel {
    /// What configuring hands to the swapchain: nothing for a size without
    /// area, since such a swapchain cannot exist.
    pub open spec fn configure_action(self) -> Option<SurfaceConfig> {
        if self.size.has_area() {
            Some(config_for(self.size, self.format))
        } else {
            None
        }
    }

    /// The state after configuring.
    pub open spec fn configure(self) -> SurfaceModel {
        match self.configure_action() {
            Some(c) => SurfaceModel { applied: Some(c), ..self },
            None => self,
        }
    }

    /// The state after the window took `size`, before reconfiguring.
    pub open spec fn with_size(self, size: SurfaceSize) -> SurfaceModel {
        SurfaceModel { size, ..self }
    }

    /// The state after a resize to `size`.
    pub open spec fn resize(self, size: SurfaceSize) -> SurfaceModel {
        self.with_size(size).configure()
    }

    /// The size of the images the swapchain hands out, if it is configured.
    pub open spec fn frame_size(self) -> Option<SurfaceSize> {
        match self.applied {
            Some(c) => Some(SurfaceSize { width: c.width, height: c.height }),
            None => None,
        }
    }
}

/// Configuring twice in a row, with the size unchanged, applies the same
/// configuration and leaves the same state as configuring once.
pub proof fn lemma_configure_idempotent(m: SurfaceModel)
    ensures
        m.configure().configure() == m.configure(),
        m.configure().configure_action() == m.configure_action(),
{
}

/// After a resize to a size with area, the swapchain hands out images of
/// exactly that size, whatever the state before.
pub proof fn lemma_resize_then_frame_size(m: SurfaceModel, size: SurfaceSize)
    requires
        size.has_area(),
    ensures
        m.resize(size).frame_size() == Some(size),
        m.resize(size).applied == Some(config_for(size, m.format)),
{
}

/// A resize to a size without area applies nothing: the swapchain keeps its
/// configuration, and a later resize to a size with area configures it anew.
pub proof fn lemma_resize_without_area_keeps_config(
    m: SurfaceModel,
    empty: SurfaceSize,
    size: SurfaceSize,
)
    requires
        !empty.has_area(),
        size.has_area(),
    ensures
        m.resize(empty).applied == m.applied,
        m.with_size(empty).configure_action() is None,
        m.resize(empty).resize(size).frame_size() == Some(size),
{
}

/// The device-facing state of one window's surface.
pub struct State {
    size: SurfaceSize,
    surface_format: TextureFormat,
    view_format: TextureFormat,
    applied: Option<SurfaceConfig>,
    axis: AxisRenderer,
    clear: Color,
}

impl View for State {
    type V = SurfaceModel;

    closed spec fn view(&self) -> SurfaceModel {
        SurfaceModel { size: self.size, format: self.surface_format, applied: self.applied }
    }
}

impl State {
    /// The stored view format is the sRGB variant of the surface format, the
    /// axis renderer targets the surface format with the axis geometry, the clear color is the
    /// background, and what was applied is the configuration of its size.
    pub closed spec fn wf(&self) -> bool {
        &&& self.view_format == srgb_variant(self.surface_format)
        &&& self.axis.spec_pipeline().targets@ == seq![opaque_target(self.surface_format)]
        &&& self.axis.spec_vertices() == axis_vertices()
        &&& self.clear == background()
        &&& self.applied matches Some(c) ==> c == config_for(
            SurfaceSize { width: c.width, height: c.height },
            self.surface_format,
        )
    }

    /// The axis renderer draws into the surface's format.
    pub closed spec fn spec_axis(&self) -> AxisRenderer {
        self.axis
    }

    /// Takes the first of the formats the surface supports, builds the axis
    /// renderer for it, and configures the swapchain at `size`.
    pub fn new(formats: &Vec<TextureFormat>, size: SurfaceSize) -> (r: Result<State, StateError>)
        ensures
            formats@.len() == 0 <==> r is Err,
            r is Err ==> r == Err::<State, StateError>(StateError::NoSurfaceFormat),
            r matches Ok(s) ==> s.wf() && s@ == (SurfaceModel {
                size,
                format: formats@[0],
                applied: None,
            }).configure(),
    {
        if formats.len() == 0 {
            return Err(StateError::NoSurfaceFormat);
        }
        let surface_format = formats[0];
        let view_format = srgb_view_format(surface_format);
        let axis = AxisRenderer::new(surface_format);
        let mut state = State {
            size,
            surface_format,
            view_format,
            applied: None,
            axis,
            clear: Color { r: 0, g: 0, b: 255, a: 255 },
        };
        let _ = state.configure_surface();
        Ok(state)
    }

    /// The size the window last reported.
    pub fn size(&self) -> (r: SurfaceSize)
        ensures
            r == self@.size,
    {
        self.size
    }

    /// The format negotiated at creation.
    pub fn surface_format(&self) -> (r: TextureFormat)
        ensures
            r == self@.format,
    {
        self.surface_format
    }

    /// The configuration last applied to the swapchain.
    pub fn config(&self) -> (r: Option<SurfaceConfig>)
        ensures
            r == self@.applied,
    {
        self.applied
    }

    /// The renderer whose vertices and pipeline the caller uploads.
    pub fn axis(&self) -> (r: &AxisRenderer)
        ensures
            *r == self.spec_axis(),
    {
        &self.axis
    }

    /// Applies the current size and format to the swapchain; returns the
    /// configuration to hand to the surface, or `None` where the size has
    /// no area and the swapchain is left as it was.
    pub fn configure_surface(&mut self) -> (r: Option<SurfaceConfig>)
        requires
            old(self).wf(),
        ensures
            final(self).wf(),
            final(self)@ == old(self)@.configure(),
            r == old(self)@.configure_action(),
            final(self).spec_axis() == old(self).spec_axis(),
    {
        if self.size.width == 0 || self.size.height == 0 {
            return None;
        }
        let config = SurfaceConfig {
            render_attachment: true,
            format: self.surface_format,
            view_format: self.view_format,
            alpha_mode: AlphaMode::Auto,
            width: self.size.width,
            height: self.size.height,
            max_frame_latency: MAX_FRAME_LATENCY,
            present_mode: PresentMode::AutoVsync,
        };
        self.applied = Some(config);
        Some(config)
    }

    /// Records the window's new size and reconfigures the swapchain for it.
    pub fn resize(&mut self, new_size: SurfaceSize) -> (r: Option<SurfaceConfig>)
        requires
            old(self).wf(),
        ensures
            final(self).wf(),
            final(self)@ == old(self)@.resize(new_size),
            r == old(self)@.with_size(new_size).configure_action(),
            final(self).spec_axis() == old(self).spec_axis(),
    {
        self.size = new_size;
        self.configure_surface()
    }

    /// Plans one frame: the image is acquired at the configured size, cleared
    /// to the background, and each renderer draws into the one pass.
    pub fn render(&self) -> (r: Result<FramePlan, RenderError>)
        requires
            self.wf(),
        ensures
            self@.applied is None <==> r is Err,
            r is Err ==> r == Err::<FramePlan, RenderError>(RenderError::NotConfigured),
            r matches Ok(p) ==> {
                &&& self@.frame_size() == Some(SurfaceSize { width: p.width, height: p.height })
                &&& p.view_format == srgb_variant(self@.format)
                &&& p.clear == background()
                &&& p.commands@ == axis_draw_commands()
                &&& count_draws(p.commands@) == 2
            },
    {
        match self.applied {
            None => Err(RenderError::NotConfigured),
            Some(config) => {
                let mut pass = RenderPass::new();
                assert(count_draws(pass@) == 0);
                self.axis.draw(&mut pass);
                let commands = pass.finish();
                assert(commands@ =~= axis_draw_commands());
                Ok(FramePlan {
                    width: config.width,
                    height: config.height,
                    view_format: config.view_format,
                    clear: self.clear,
                    commands,
                })
            },
        }
    }
}

} // verus!
