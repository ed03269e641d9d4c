//! The graphics context: the surface, device and queue of one window, the
//! surface configuration kept in step with the window's size, and the
//! acquire / clear / submit / present cycle of one frame.
use crate::render_loop::{FrameError, Size};
use vstd::prelude::*;

verus! {

#[verifier::external_type_specification]
#[verifier::external_body]
pub struct ExSurface(wgpu::Surface);

#[verifier::external_type_specification]
#[verifier::external_body]
pub struct ExAdapter(wgpu::Adapter);

#[verifier::external_type_specification]
#[verifier::external_body]
pub struct ExDevice(wgpu::Device);

#[verifier::external_type_specification]
#[verifier::external_body]
pub struct ExQueue(wgpu::Queue);

#[verifier::external_type_specification]
#[verifier::external_body]
pub struct ExRequestDeviceError(wgpu::RequestDeviceError);

#[verifier::external_type_specification]
#[verifier::external_body]
pub struct ExTextureFormat(wgpu::TextureFormat);

#[verifier::external_type_specification]
#[verifier::external_body]
pub struct ExSurfaceTexture(wgpu::SurfaceTexture);

#[verifier::external_type_specification]
#[verifier::external_body]
pub struct ExTextureView(wgpu::TextureView);

#[verifier::external_type_specification]
#[verifier::external_body]
pub struct ExCommandEncoder(wgpu::CommandEncoder);

#[verifier::external_type_specification]
#[verifier::external_body]
pub struct ExCommandBuffer(wgpu::CommandBuffer);

#[verifier::external_type_specification]
#[verifier::external_body]
pub struct ExColor(wgpu::Color);

/// How presented frames reach the screen.
#[derive(Clone, Copy, PartialEq, Eq, Structural, Debug)]
pub enum PresentMode {
    /// Frames are shown as soon as they are presented, possibly tearing.
    Immediate,
    /// The newest frame replaces a waiting one.
    Mailbox,
    /// Frames are shown in order, one per vertical blank.
    Fifo,
}

/// Why a graphics context could not be set up.
#[derive(Clone, Copy, PartialEq, Eq, Structural, Debug)]
pub enum SetupError {
    /// No adapter can present to the surface.
    NoAdapterFound,
    /// The adapter refused a device.
    DeviceRequestFailed,
    /// The surface reports no format that the adapter can render.
    NoSurfaceFormat,
}

/// What the textures of the surface may be used for. A surface's textures can
/// only be render targets.
#[derive(Clone, Copy, PartialEq, Eq, Structural, Debug)]
pub enum TextureUsage {
    /// As the color target of a render pass.
    RenderAttachment,
}

/// The configuration of the surface: what its textures are used for, their
/// format, the presentation mode and the size.
pub struct SurfaceConfig {
    pub usage: TextureUsage,
    pub format: wgpu::TextureFormat,
    pub present_mode: PresentMode,
    pub width: u32,
    pub height: u32,
}

/// Relies on wgpu::Surface::get_preferred_format: the first of Bgra8UnormSrgb,
/// Rgba8UnormSrgb, Bgra8Unorm and Rgba8Unorm that the surface offers to the
/// adapter, or none where the adapter's queue family cannot present to the
/// surface. Where the surface offers none of the four, wgpu 0.12 stops the
/// process rather than answer none; its public interface has no query that
/// avoids this, and which formats a surface offers is not known before the
/// call.
#[verifier::external_body]
fn preferred_format(surface: &wgpu::Surface, adapter: &wgpu::Adapter) -> (r: Option<wgpu::TextureFormat>) {
    surface.get_preferred_format(adapter)
}

/// Relies on wgpu::Texture::create_view: a view of the whole frame texture,
/// with the default descriptor.
#[verifier::external_body]
fn frame_view(frame: &wgpu::SurfaceTexture) -> (r: wgpu::TextureView) {
    frame.texture.create_view(&wgpu::TextureViewDescriptor::default())
}

/// Relies on wgpu::Device::create_command_encoder: a fresh command encoder
/// with this label.
#[verifier::external_body]
fn command_encoder(device: &wgpu::Device, label: &str) -> (r: wgpu::CommandEncoder) {
    device.create_command_encoder(&wgpu::CommandEncoderDescriptor { label: Some(label) })
}

/// Relies on wgpu::CommandEncoder::finish: the recorded commands as one buffer.
#[verifier::external_body]
fn finish_commands(encoder: wgpu::CommandEncoder) -> (r: wgpu::CommandBuffer) {
    encoder.finish()
}

/// One operation that the context has performed on the GPU.
pub enum GpuOp {
    /// The surface was configured.
    Configure(SurfaceConfig),
    /// A render pass was recorded whose one color attachment is cleared to
    /// `color`, and kept where `store` holds.
    ClearPass { color: wgpu::Color, store: bool },
    /// One command buffer was submitted to the queue.
    Submit,
    /// The acquired frame was presented.
    Present,
}

/// Turns the outcome of an adapter request into the adapter or the setup error.
pub fn require_adapter(found: Option<wgpu::Adapter>) -> (r: Result<wgpu::Adapter, SetupError>)
    ensures
        found is None <==> r == Err::<wgpu::Adapter, SetupError>(SetupError::NoAdapterFound),
        found is Some <==> r is Ok,
        r is Ok ==> found == Some(r->Ok_0),
{
    match found {
        Some(a) => Ok(a),
        None => Err(SetupError::NoAdapterFound),
    }
}

/// Turns the outcome of a device request into the device and its queue, or
/// the setup error.
pub fn require_device(requested: Result<(wgpu::Device, wgpu::Queue), wgpu::RequestDeviceError>) -> (r:
    Result<(wgpu::Device, wgpu::Queue), SetupError>)
    ensures
        requested is Err <==> r == Err::<(wgpu::Device, wgpu::Queue), SetupError>(
            SetupError::DeviceRequestFailed,
        ),
        requested is Ok <==> r is Ok,
        r is Ok ==> requested == Ok::<(wgpu::Device, wgpu::Queue), wgpu::RequestDeviceError>(
            r->Ok_0,
        ),
{
    match requested {
        Ok(pair) => Ok(pair),
        Err(_) => Err(SetupError::DeviceRequestFailed),
    }
}

/// The configuration that a context applies at a given size and format:
/// render attachment usage and FIFO presentation.
pub open spec fn surface_config(format: wgpu::TextureFormat, size: Size) -> SurfaceConfig {
    SurfaceConfig {
        usage: TextureUsage::RenderAttachment,
        format,
        present_mode: PresentMode::Fifo,
        width: size.width,
        height: size.height,
    }
}

/// What one frame does on the GPU: one pass that clears to `color` and keeps
/// the result, one submit, then the present.
pub open spec fn frame_ops(color: wgpu::Color) -> Seq<GpuOp> {
    seq![GpuOp::ClearPass { color, store: true }, GpuOp::Submit, GpuOp::Present]
}

/// The GPU side of one window.
pub struct GraphicsContext {
    surface: wgpu::Surface,
    device: wgpu::Device,
    queue: wgpu::Queue,
    config: SurfaceConfig,
    size: Size,
    /// The operations performed on the GPU so far, oldest first. Only the
    /// methods that perform them extend it.
    ops: Ghost<Seq<GpuOp>>,
}

impl GraphicsContext {
    /// The configuration is the one for the current size and format, and where
    /// that size has area the surface has been configured with it.
    pub closed spec fn wf(self) -> bool {
        &&& self.config == surface_config(self.config.format, self.size)
        &&& self.size.has_area() ==> self.ops@.contains(GpuOp::Configure(self.config))
    }

    /// The size of the surface.
    pub closed spec fn size_spec(self) -> Size {
        self.size
    }

    /// The configuration of the surface: the one last applied, where the size
    /// has area.
    pub closed spec fn config_spec(self) -> SurfaceConfig {
        self.config
    }

    /// The operations performed on the GPU so far, in order.
    pub closed spec fn ops_spec(self) -> Seq<GpuOp> {
        self.ops@
    }

    /// What a well-formed context shows of itself.
    pub proof fn lemma_wf_config(self)
        requires
            self.wf(),
        ensures
            self.config_spec() == surface_config(self.config_spec().format, self.size_spec()),
            self.size_spec().has_area() ==> self.ops_spec().contains(
                GpuOp::Configure(self.config_spec()),
            ),
    {
    }

    /// Relies on wgpu::Surface::configure: (re)creates the surface's swap chain
    /// for the device with the context's configuration. wgpu stops the process
    /// on a size without area, so none is passed; on a format the surface does not offer, which the
    /// format that the surface itself preferred rules out; and where the
    /// backend reports the surface lost while configuring, which depends on
    /// the GPU at that moment and on no argument.
    #[verifier::external_body]
    fn apply_config(&mut self)
        requires
            old(self).config.width > 0,
            old(self).config.height > 0,
        ensures
            final(self).ops@ == old(self).ops@.push(GpuOp::Configure(old(self).config)),
            final(self).config == old(self).config,
            final(self).size == old(self).size,
    {
        let c = &self.config;
        let usage = match c.usage {
            TextureUsage::RenderAttachment => wgpu::TextureUsages::RENDER_ATTACHMENT,
        };
        let present_mode = match c.present_mode {
            PresentMode::Immediate => wgpu::PresentMode::Immediate,
            PresentMode::Mailbox => wgpu::PresentMode::Mailbox,
            PresentMode::Fifo => wgpu::PresentMode::Fifo,
        };
        let (format, width, height) = (c.format, c.width, c.height);
        let config = wgpu::SurfaceConfiguration { usage, format, width, height, present_mode };
        self.surface.configure(&self.device, &config)
    }

    /// Relies on wgpu::Surface::get_current_texture: the next frame of the
    /// surface, or why none is available; wgpu's four errors are carried over
    /// one for one. wgpu stops the process on a surface that was never
    /// configured, which `requires` rules out.
    #[verifier::external_body]
    fn acquire_frame(&self) -> (r: Result<wgpu::SurfaceTexture, FrameError>)
        requires
            self.wf(),
            self.size.has_area(),
    {
        self.surface.get_current_texture().map_err(
            |e| match e {
                wgpu::SurfaceError::Timeout => FrameError::Timeout,
                wgpu::SurfaceError::Outdated => FrameError::Outdated,
                wgpu::SurfaceError::Lost => FrameError::Lost,
                wgpu::SurfaceError::OutOfMemory => FrameError::OutOfMemory,
            },
        )
    }

    /// Relies on wgpu::CommandEncoder::begin_render_pass: records one render
    /// pass over the view, with a single color attachment that is cleared to
    /// `color` and kept where `store` holds, and with no resolve target and no
    /// depth or stencil attachment. The pass is ended at once, with no draw
    /// call in it.
    #[verifier::external_body]
    fn record_clear_pass(
        &mut self,
        encoder: &mut wgpu::CommandEncoder,
        view: &wgpu::TextureView,
        color: &wgpu::Color,
        store: bool,
    )
        ensures
            final(self).ops@ == old(self).ops@.push(GpuOp::ClearPass { color: *color, store }),
            final(self).config == old(self).config,
            final(self).size == old(self).size,
    {
        encoder.begin_render_pass(
            &wgpu::RenderPassDescriptor {
                label: Some("Render Encoder"),
                color_attachments: &[wgpu::RenderPassColorAttachment {
                    view,
                    resolve_target: None,
                    ops: wgpu::Operations { load: wgpu::LoadOp::Clear(*color), store },
                }],
                depth_stencil_attachment: None,
            },
        );
    }

    /// Relies on wgpu::Queue::submit: hands this one command buffer to the
    /// context's queue.
    #[verifier::external_body]
    fn submit_commands(&mut self, commands: wgpu::CommandBuffer)
        ensures
            final(self).ops@ == old(self).ops@.push(GpuOp::Submit),
            final(self).config == old(self).config,
            final(self).size == old(self).size,
    {
        self.queue.submit(std::iter::once(commands))
    }

    /// Relies on wgpu::SurfaceTexture::present: schedules the frame for display.
    #[verifier::external_body]
    fn present_frame(&mut self, frame: wgpu::SurfaceTexture)
        ensures
            final(self).ops@ == old(self).ops@.push(GpuOp::Present),
            final(self).config == old(self).config,
            final(self).size == old(self).size,
    {
        frame.present()
    }

    /// Sets up the context on a surface, an adapter that can present to it, and
    /// the adapter's device and queue, with the surface's preferred format for
    /// the adapter. The surface is configured at `size` only where that size
    /// has area; otherwise configuring waits for the first resize that has.
    pub fn new(
        surface: wgpu::Surface,
        adapter: &wgpu::Adapter,
        device: wgpu::Device,
        queue: wgpu::Queue,
        size: Size,
    ) -> (r: Result<GraphicsContext, SetupError>)
        ensures
            r is Err ==> r == Err::<GraphicsContext, SetupError>(SetupError::NoSurfaceFormat),
            r is Ok ==> {
                &&& r->Ok_0.wf()
                &&& r->Ok_0.size_spec() == size
                &&& r->Ok_0.config_spec() == surface_config(r->Ok_0.config_spec().format, size)
                &&& r->Ok_0.ops_spec() == if size.has_area() {
                    seq![GpuOp::Configure(r->Ok_0.config_spec())]
                } else {
                    Seq::<GpuOp>::empty()
                }
            },
    {
        let format = preferred_format(&surface, adapter);
        GraphicsContext::with_format(surface, device, queue, size, format)
    }

    /// Sets up the context with the format that the surface preferred, where it
    /// named one, and configures the surface once where `size` has area.
    /// Without a format nothing is configured and setting up fails.
    fn with_format(
        surface: wgpu::Surface,
        device: wgpu::Device,
        queue: wgpu::Queue,
        size: Size,
        format: Option<wgpu::TextureFormat>,
    ) -> (r: Result<GraphicsContext, SetupError>)
        ensures
            format is None <==> r == Err::<GraphicsContext, SetupError>(SetupError::NoSurfaceFormat),
            format is Some ==> {
                &&& r is Ok
                &&& r->Ok_0.wf()
                &&& r->Ok_0.size_spec() == size
                &&& r->Ok_0.config_spec() == surface_config(format->Some_0, size)
                &&& r->Ok_0.ops_spec() == if size.has_area() {
                    seq![GpuOp::Configure(surface_config(format->Some_0, size))]
                } else {
                    Seq::<GpuOp>::empty()
                }
            },
    {
        let format = match format {
            Some(f) => f,
            None => return Err(SetupError::NoSurfaceFormat),
        };
        let config = SurfaceConfig {
            usage: TextureUsage::RenderAttachment,
            format,
            present_mode: PresentMode::Fifo,
            width: size.width,
            height: size.height,
        };
        let ops: Ghost<Seq<GpuOp>> = Ghost(Seq::empty());
        let mut ctx = GraphicsContext { surface, device, queue, config, size, ops };
        if size.is_drawable() {
            ctx.apply_config();
            assert(ctx.ops@[0] == GpuOp::Configure(ctx.config));
        }
        assert(ctx.ops@ =~= if size.has_area() {
            seq![GpuOp::Configure(surface_config(format, size))]
        } else {
            Seq::<GpuOp>::empty()
        });
        Ok(ctx)
    }

    /// The size of the surface.
    pub fn size(&self) -> (r: Size)
        ensures
            r == self.size_spec(),
    {
        self.size
    }

    /// Reconfigures the surface at a new size, keeping usage, format and
    /// presentation mode; a size equal to the current one is applied again. A
    /// size without area is ignored: the context stays exactly as it was and
    /// the surface is not configured.
    pub fn resize(&mut self, new_size: Size)
        requires
            old(self).wf(),
        ensures
            final(self).wf(),
            final(self).size_spec() == old(self).size_spec().after_resize(new_size),
            final(self).config_spec() == surface_config(
                old(self).config_spec().format,
                final(self).size_spec(),
            ),
            new_size.has_area() ==> final(self).ops_spec() == old(self).ops_spec().push(
                GpuOp::Configure(final(self).config_spec()),
            ),
            !new_size.has_area() ==> final(self).ops_spec() == old(self).ops_spec()
                && final(self).config_spec() == old(self).config_spec(),
    {
        if new_size.is_drawable() {
            self.size = new_size;
            self.config.width = new_size.width;
            self.config.height = new_size.height;
            self.apply_config();
            assert(self.ops@[self.ops@.len() - 1] == GpuOp::Configure(self.config));
        }
    }

    /// Renders one frame: acquires the next surface texture, and where that
    /// succeeds, records one render pass that clears it to `color`, submits it
    /// and presents the frame. Where no frame can be acquired, or the surface
    /// was never configured, nothing is done on the GPU and the reason is
    /// returned. The surface is never reconfigured here.
    pub fn render(&mut self, color: &wgpu::Color) -> (r: Result<(), FrameError>)
        requires
            old(self).wf(),
        ensures
            final(self).wf(),
            final(self).size_spec() == old(self).size_spec(),
            final(self).config_spec() == old(self).config_spec(),
            !old(self).size_spec().has_area() ==> r == Err::<(), FrameError>(
                FrameError::Unconfigured,
            ),
            r is Ok ==> final(self).ops_spec() == old(self).ops_spec() + frame_ops(*color),
            r is Err ==> final(self).ops_spec() == old(self).ops_spec(),
    {
        if !self.size.is_drawable() {
            return Err(FrameError::Unconfigured);
        }
        let acquired = self.acquire_frame();
        self.present_acquired(acquired, color)
    }

    /// The part of a frame that follows acquisition: a failed acquisition is
    /// returned as it is, with nothing done on the GPU; an acquired frame is
    /// cleared to `color` in one pass, submitted and presented.
    fn present_acquired(&mut self, acquired: Result<wgpu::SurfaceTexture, FrameError>, color: &wgpu::Color) -> (r:
        Result<(), FrameError>)
        requires
            old(self).wf(),
        ensures
            final(self).wf(),
            final(self).size_spec() == old(self).size_spec(),
            final(self).config_spec() == old(self).config_spec(),
            acquired is Err ==> r == Err::<(), FrameError>(acquired->Err_0)
                && final(self).ops_spec() == old(self).ops_spec(),
            acquired is Ok ==> r is Ok && final(self).ops_spec() == old(self).ops_spec() + frame_ops(
                *color,
            ),
    {
        let frame = match acquired {
            Ok(f) => f,
            Err(e) => return Err(e),
        };
        let ghost before = self.ops@;
        let view = frame_view(&frame);
        let mut encoder = command_encoder(&self.device, "Render Encoder");
        self.record_clear_pass(&mut encoder, &view, color, true);
        self.submit_commands(finish_commands(encoder));
        self.present_frame(frame);
        assert(self.ops@ =~= before + frame_ops(*color));
        assert(self.size.has_area() ==> before.contains(GpuOp::Configure(self.config)));
        proof {
            if self.size.has_area() {
                let i = choose|i: int| 0 <= i < before.len() && before[i] == GpuOp::Configure(self.config);
                assert(self.ops@[i] == GpuOp::Configure(self.config));
            }
        }
        Ok(())
    }
}

} // verus!
