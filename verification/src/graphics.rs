//! The surface manager: the presentation surface of a window, kept in step
//! with the window's lifecycle.
//!
//! The GPU objects themselves live with the platform layer. This module
//! holds what is decided about them: whether a surface is bound, what it
//! was last configured with, and the commands that the platform layer has
//! yet to carry out, in the order in which they were decided. The
//! instance, adapter, device and queue are acquired by `Initialize` and by
//! no other command, so they outlive every surface.

use vstd::prelude::*;
use crate::config::Color;
use crate::config::MIN_WINDOW_SIZE;
use crate::config::PowerPreference;
use crate::config::PresentMode;
use crate::config::WindowConfig;

verus! {

/// A size in device pixels.
#[derive(Copy, Clone, Debug, PartialEq, Eq, Structural)]
pub struct PhysicalSize {
    pub width: u32,
    pub height: u32,
}

impl PhysicalSize {
    pub fn new(width: u32, height: u32) -> (size: PhysicalSize)
        ensures
            size.width == width,
            size.height == height,
    {
        PhysicalSize { width, height }
    }
}

/// A dimension raised to the smallest that a surface accepts.
pub open spec fn at_least_min(dimension: u32) -> u32 {
    if dimension < MIN_WINDOW_SIZE {
        MIN_WINDOW_SIZE
    } else {
        dimension
    }
}

fn clamp_dimension(dimension: u32) -> (clamped: u32)
    ensures
        clamped == at_least_min(dimension),
{
    if dimension < MIN_WINDOW_SIZE {
        MIN_WINDOW_SIZE
    } else {
        dimension
    }
}

/// What a surface is configured with, as far as this crate decides it.
/// The texture format and the alpha mode depend on what the adapter
/// offers; the platform layer picks them when it creates the surface.
#[derive(Copy, Clone, Debug, PartialEq, Eq, Structural)]
pub struct SurfaceConfiguration {
    pub width: u32,
    pub height: u32,
    pub present_mode: PresentMode,
}

/// A surface bound to the window, with the configuration last applied.
#[derive(Copy, Clone, Debug, PartialEq, Eq, Structural)]
pub struct Surface {
    pub configuration: SurfaceConfiguration,
}

/// Work for the platform layer.
#[derive(Copy, Clone, Debug, PartialEq, Eq, Structural)]
pub enum GpuCommand {
    /// Select a backend instance, bind a first surface to the window,
    /// request an adapter that can present to it with this power
    /// preference, open a device and its queue, and configure the surface.
    /// A failure of any step is fatal.
    Initialize { power_preference: PowerPreference, configuration: SurfaceConfiguration },
    /// Bind a fresh surface to the window, in place of any that is bound,
    /// and configure it. The device and the queue stay as they are.
    CreateSurface(SurfaceConfiguration),
    /// Configure the bound surface anew.
    Configure(SurfaceConfiguration),
    /// Let go of the bound surface. The device and the queue stay.
    ReleaseSurface,
    /// Clear the next frame of the bound surface to this colour and show it.
    Present(Color),
}

/// The surface configuration for a window of the given pixel size.
pub open spec fn configuration_for(
    window_size: PhysicalSize,
    present_mode: PresentMode,
) -> SurfaceConfiguration {
    SurfaceConfiguration {
        width: at_least_min(window_size.width),
        height: at_least_min(window_size.height),
        present_mode,
    }
}

/// A graphics context as the contracts see it.
#[verifier::ext_equal]
pub struct GraphicsContextView {
    pub surface: Option<Surface>,
    pub config: SurfaceConfiguration,
    pub commands: Seq<GpuCommand>,
}

impl GraphicsContextView {
    /// The stored configuration is usable, and a bound surface is
    /// configured with exactly the stored configuration.
    pub open spec fn wf(self) -> bool {
        &&& self.config.width >= MIN_WINDOW_SIZE
        &&& self.config.height >= MIN_WINDOW_SIZE
        &&& self.surface matches Some(surface) ==> surface.configuration == self.config
    }

    /// A surface is bound: frames can be presented.
    pub open spec fn ready(self) -> bool {
        self.surface is Some
    }

    /// The context for a window of the given size, with its first command.
    pub open spec fn initial(
        window_size: PhysicalSize,
        present_mode: PresentMode,
        power_preference: PowerPreference,
    ) -> GraphicsContextView {
        let config = configuration_for(window_size, present_mode);
        GraphicsContextView {
            surface: Some(Surface { configuration: config }),
            config,
            commands: seq![GpuCommand::Initialize { power_preference, configuration: config }],
        }
    }

    /// The context after a resize to `new_size`. A size with a zero
    /// dimension changes nothing. Any other size is stored, and a bound
    /// surface is configured anew.
    pub open spec fn resize(self, new_size: PhysicalSize) -> GraphicsContextView {
        if new_size.width > 0 && new_size.height > 0 {
            let config = configuration_for(new_size, self.config.present_mode);
            if self.surface is Some {
                GraphicsContextView {
                    surface: Some(Surface { configuration: config }),
                    config,
                    commands: self.commands.push(GpuCommand::Configure(config)),
                }
            } else {
                GraphicsContextView { config, ..self }
            }
        } else {
            self
        }
    }

    /// The context after the surface was let go.
    pub open spec fn suspend(self) -> GraphicsContextView {
        if self.surface is Some {
            GraphicsContextView {
                surface: None,
                commands: self.commands.push(GpuCommand::ReleaseSurface),
                ..self
            }
        } else {
            self
        }
    }

    /// The context after a surface was bound to a window that now has the
    /// given pixel size.
    pub open spec fn resume(self, window_size: PhysicalSize) -> GraphicsContextView {
        let config = configuration_for(window_size, self.config.present_mode);
        GraphicsContextView {
            surface: Some(Surface { configuration: config }),
            config,
            commands: self.commands.push(GpuCommand::CreateSurface(config)),
        }
    }

    /// The context after a frame was asked for: queued when a surface is
    /// bound, skipped when none is.
    pub open spec fn present(self, clear_color: Color) -> GraphicsContextView {
        if self.surface is Some {
            GraphicsContextView {
                commands: self.commands.push(GpuCommand::Present(clear_color)),
                ..self
            }
        } else {
            self
        }
    }

    /// The context after the platform layer took the queued commands.
    pub open spec fn drained(self) -> GraphicsContextView {
        GraphicsContextView { commands: Seq::empty(), ..self }
    }

    /// From `self` to `later` the instance, the adapter, the device and
    /// the queue stayed the same objects: `later` has the commands of
    /// `self` and, after them, only commands that acquire none.
    pub open spec fn device_kept(self, later: GraphicsContextView) -> bool {
        &&& self.commands.len() <= later.commands.len()
        &&& forall|i: int| 0 <= i < self.commands.len() ==> later.commands[i] == self.commands[i]
        &&& forall|i: int|
            self.commands.len() <= i < later.commands.len() ==> !(later.commands[i]
                is Initialize)
    }
}

/// The state of the GPU objects of one window.
#[derive(Debug)]
pub struct GraphicsContext {
    /// The bound surface; `None` while the window has none, as between a
    /// suspend and the next resume.
    pub surface: Option<Surface>,
    /// The stored surface configuration.
    pub config: SurfaceConfiguration,
    /// The commands not yet taken by the platform layer, oldest first.
    pub commands: Vec<GpuCommand>,
}

impl View for GraphicsContext {
    type V = GraphicsContextView;

    open spec fn view(&self) -> GraphicsContextView {
        GraphicsContextView {
            surface: self.surface,
            config: self.config,
            commands: self.commands@,
        }
    }
}

impl GraphicsContext {
    /// Sets up the context for a window of the given pixel size: a first
    /// surface, configured with the window's size, each dimension raised
    /// to at least 1, and with the presentation mode of `window_config`;
    /// the adapter is asked for with its power preference.
    pub fn new(window_size: PhysicalSize, window_config: &WindowConfig) -> (context:
        GraphicsContext)
        ensures
            context@ == GraphicsContextView::initial(
                window_size,
                window_config.vsync_mode,
                window_config.power_preference,
            ),
            context@.wf(),
            context@.ready(),
    {
        let config = SurfaceConfiguration {
            width: clamp_dimension(window_size.width),
            height: clamp_dimension(window_size.height),
            present_mode: window_config.vsync_mode,
        };
        let mut commands = Vec::new();
        commands.push(
            GpuCommand::Initialize {
                power_preference: window_config.power_preference,
                configuration: config,
            },
        );
        GraphicsContext { surface: Some(Surface { configuration: config }), config, commands }
    }

    /// Binds a fresh surface after the earlier one was let go.
    /// `window_size` is the window's pixel size as read now, not one kept
    /// from before: each dimension is raised to at least 1, stored, and
    /// the new surface is configured with it. A surface that was still
    /// bound is replaced.
    pub fn resume(&mut self, window_size: PhysicalSize)
        ensures
            final(self)@ == old(self)@.resume(window_size),
            final(self)@.ready(),
            final(self)@.wf(),
            final(self).config.width == at_least_min(window_size.width),
            final(self).config.height == at_least_min(window_size.height),
            final(self).config.present_mode == old(self).config.present_mode,
            old(self)@.device_kept(final(self)@),
    {
        let config = SurfaceConfiguration {
            width: clamp_dimension(window_size.width),
            height: clamp_dimension(window_size.height),
            present_mode: self.config.present_mode,
        };
        self.config = config;
        self.commands.push(GpuCommand::CreateSurface(config));
        self.surface = Some(Surface { configuration: config });
    }

    /// Lets go of the surface and keeps everything else: the stored
    /// configuration stays, and no command touches the device.
    pub fn suspend(&mut self)
        ensures
            final(self)@ == old(self)@.suspend(),
            !final(self)@.ready(),
            final(self).config == old(self).config,
            old(self)@.wf() ==> final(self)@.wf(),
            old(self)@.device_kept(final(self)@),
    {
        if self.surface.is_some() {
            self.surface = None;
            self.commands.push(GpuCommand::ReleaseSurface);
        }
    }

    /// Says whether a surface is bound. A frame may be presented only
    /// while one is.
    pub fn is_ready(&self) -> (ready: bool)
        ensures
            ready == self@.ready(),
    {
        self.surface.is_some()
    }

    /// Hands over the queued commands, oldest first, and empties the queue.
    pub fn take_commands(&mut self) -> (commands: Vec<GpuCommand>)
        ensures
            commands@ == old(self)@.commands,
            final(self)@ == old(self)@.drained(),
    {
        let mut commands = Vec::new();
        std::mem::swap(&mut self.commands, &mut commands);
        commands
    }
}

/// A renderer as the contracts see it.
#[verifier::ext_equal]
pub struct WgpuRendererView {
    pub context: GraphicsContextView,
    pub size: PhysicalSize,
}

impl WgpuRendererView {
    pub open spec fn initial(
        window_size: PhysicalSize,
        present_mode: PresentMode,
        power_preference: PowerPreference,
    ) -> WgpuRendererView {
        WgpuRendererView {
            context: GraphicsContextView::initial(window_size, present_mode, power_preference),
            size: window_size,
        }
    }

    /// The renderer after a resize to `new_size`: unchanged when a
    /// dimension is zero.
    pub open spec fn resize(self, new_size: PhysicalSize) -> WgpuRendererView {
        if new_size.width > 0 && new_size.height > 0 {
            WgpuRendererView {
                context: self.context.resize(new_size),
                size: PhysicalSize {
                    width: at_least_min(new_size.width),
                    height: at_least_min(new_size.height),
                },
            }
        } else {
            self
        }
    }

    /// The renderer after one resize for each of `sizes`, first to last.
    pub open spec fn resize_all(self, sizes: Seq<PhysicalSize>) -> WgpuRendererView
        decreases sizes.len(),
    {
        if sizes.len() == 0 {
            self
        } else {
            self.resize_all(sizes.drop_last()).resize(sizes.last())
        }
    }

    /// The renderer after its surface was let go.
    pub open spec fn suspend(self) -> WgpuRendererView {
        WgpuRendererView { context: self.context.suspend(), ..self }
    }

    /// The renderer after a surface was bound to a window of this size.
    pub open spec fn resume(self, window_size: PhysicalSize) -> WgpuRendererView {
        WgpuRendererView { context: self.context.resume(window_size), ..self }
    }

    /// The renderer after a frame was asked for.
    pub open spec fn present(self, clear_color: Color) -> WgpuRendererView {
        WgpuRendererView { context: self.context.present(clear_color), ..self }
    }

    /// The renderer after the platform layer took the queued commands.
    pub open spec fn drained(self) -> WgpuRendererView {
        WgpuRendererView { context: self.context.drained(), ..self }
    }
}

/// The renderer of one window: its graphics context and the pixel size
/// last known.
#[derive(Debug)]
pub struct WgpuRenderer {
    pub context: GraphicsContext,
    pub size: PhysicalSize,
}

impl View for WgpuRenderer {
    type V = WgpuRendererView;

    open spec fn view(&self) -> WgpuRendererView {
        WgpuRendererView { context: self.context@, size: self.size }
    }
}

impl WgpuRenderer {
    /// The renderer for a window whose pixel size is `window_size`.
    pub fn new(window_size: PhysicalSize, window_config: &WindowConfig) -> (renderer: WgpuRenderer)
        ensures
            renderer@ == WgpuRendererView::initial(
                window_size,
                window_config.vsync_mode,
                window_config.power_preference,
            ),
            renderer@.context.wf(),
            renderer@.context.ready(),
    {
        let context = GraphicsContext::new(window_size, window_config);
        WgpuRenderer { context, size: window_size }
    }

    /// Takes a new window size. With a zero width or height nothing
    /// changes. Otherwise the size is stored, the stored surface
    /// configuration takes its width and height, and a bound surface is
    /// configured anew; without a surface, the stored configuration waits
    /// for the next resume.
    pub fn resize(&mut self, new_size: PhysicalSize)
        ensures
            final(self)@ == old(self)@.resize(new_size),
            new_size.width > 0 && new_size.height > 0 ==> {
                &&& final(self).config().width == at_least_min(new_size.width)
                &&& final(self).config().height == at_least_min(new_size.height)
                &&& final(self).config().width == new_size.width
                &&& final(self).config().height == new_size.height
                &&& final(self).size == new_size
                &&& final(self)@.context.wf()
            },
            new_size.width == 0 || new_size.height == 0 ==> final(self)@ == old(self)@,
            final(self).config().present_mode == old(self).config().present_mode,
            final(self)@.context.ready() == old(self)@.context.ready(),
            old(self)@.context.wf() ==> final(self)@.context.wf(),
            old(self)@.context.device_kept(final(self)@.context),
    {
        if new_size.width > 0 && new_size.height > 0 {
            let width = clamp_dimension(new_size.width);
            let height = clamp_dimension(new_size.height);
            self.size = PhysicalSize { width, height };
            let config = SurfaceConfiguration {
                width,
                height,
                present_mode: self.context.config.present_mode,
            };
            self.context.config = config;
            if self.context.surface.is_some() {
                self.context.surface = Some(Surface { configuration: config });
                self.context.commands.push(GpuCommand::Configure(config));
            }
            self.update_resources();
        }
    }

    /// Rebuilds what depends on the surface's size. Nothing does yet.
    fn update_resources(&mut self)
        ensures
            *final(self) == *old(self),
    {
    }

    /// The stored surface configuration.
    pub open spec fn config(&self) -> SurfaceConfiguration {
        self.context.config
    }

    /// Asks for a frame, cleared to `clear_color`. The frame is queued
    /// when a surface is bound and skipped when none is; the result says
    /// which.
    pub fn present(&mut self, clear_color: Color) -> (presented: bool)
        ensures
            presented == old(self)@.context.ready(),
            final(self)@ == old(self)@.present(clear_color),
            final(self)@.context.wf() == old(self)@.context.wf(),
            old(self)@.context.device_kept(final(self)@.context),
    {
        if self.context.surface.is_some() {
            self.context.commands.push(GpuCommand::Present(clear_color));
            true
        } else {
            false
        }
    }

    /// Hands over the queued commands, oldest first, and empties the queue.
    pub fn take_commands(&mut self) -> (commands: Vec<GpuCommand>)
        ensures
            commands@ == old(self)@.context.commands,
            final(self)@ == old(self)@.drained(),
    {
        self.context.take_commands()
    }
}

/// The last of `sizes` that has no zero dimension, if there is one.
pub open spec fn last_usable(sizes: Seq<PhysicalSize>) -> Option<PhysicalSize>
    decreases sizes.len(),
{
    if sizes.len() == 0 {
        None
    } else if sizes.last().width > 0 && sizes.last().height > 0 {
        Some(sizes.last())
    } else {
        last_usable(sizes.drop_last())
    }
}

/// Through any sequence of resizes the stored configuration follows the
/// sizes that are usable and ignores the others: in the end it holds the
/// width and height of the last size without a zero dimension, or what it
/// held at first when there was no such size. The presentation mode and
/// the binding of the surface do not change, a well-formed context stays
/// well formed, and the device is kept.
pub proof fn lemma_resizes_store_last_usable(renderer: WgpuRendererView, sizes: Seq<PhysicalSize>)
    ensures
        match last_usable(sizes) {
            Some(size) => {
                &&& renderer.resize_all(sizes).context.config.width == at_least_min(size.width)
                &&& renderer.resize_all(sizes).context.config.height == at_least_min(size.height)
                &&& renderer.resize_all(sizes).context.config.width == size.width
                &&& renderer.resize_all(sizes).context.config.height == size.height
                &&& renderer.resize_all(sizes).size == size
                &&& renderer.resize_all(sizes).context.wf()
            },
            None => renderer.resize_all(sizes) == renderer,
        },
        renderer.resize_all(sizes).context.config.present_mode
            == renderer.context.config.present_mode,
        renderer.resize_all(sizes).context.ready() == renderer.context.ready(),
        renderer.context.wf() ==> renderer.resize_all(sizes).context.wf(),
        renderer.context.device_kept(renderer.resize_all(sizes).context),
    decreases sizes.len(),
{
    if sizes.len() > 0 {
        lemma_resizes_store_last_usable(renderer, sizes.drop_last());
    }
}

/// Each resize in a sequence does what a single resize does: with two
/// positive dimensions the stored configuration takes them, with a zero
/// dimension the renderer stays as the resizes before left it.
pub proof fn lemma_resize_in_sequence(
    renderer: WgpuRendererView,
    sizes: Seq<PhysicalSize>,
    k: int,
)
    requires
        0 <= k < sizes.len(),
    ensures
        renderer.resize_all(sizes.take(k + 1)) == renderer.resize_all(sizes.take(k)).resize(
            sizes[k],
        ),
        sizes[k].width > 0 && sizes[k].height > 0 ==> {
            &&& renderer.resize_all(sizes.take(k + 1)).context.config.width == at_least_min(
                sizes[k].width,
            )
            &&& renderer.resize_all(sizes.take(k + 1)).context.config.height == at_least_min(
                sizes[k].height,
            )
        },
        sizes[k].width == 0 || sizes[k].height == 0 ==> renderer.resize_all(sizes.take(k + 1))
            == renderer.resize_all(sizes.take(k)),
{
    assert(sizes.take(k + 1).drop_last() == sizes.take(k));
    assert(sizes.take(k + 1).last() == sizes[k]);
}

/// Resizing is idempotent: a second resize to the same size leaves the
/// stored size, the stored configuration and the surface as the first
/// left them. Only the request to configure is queued again.
pub proof fn lemma_resize_idempotent(renderer: WgpuRendererView, new_size: PhysicalSize)
    ensures
        renderer.resize(new_size).resize(new_size).size == renderer.resize(new_size).size,
        renderer.resize(new_size).resize(new_size).context.config == renderer.resize(
            new_size,
        ).context.config,
        renderer.resize(new_size).resize(new_size).context.surface == renderer.resize(
            new_size,
        ).context.surface,
{
}

/// A suspend and the resume that follows it: in between no surface is
/// bound; afterwards one is, configured with the window's size as read at
/// the resume, each dimension raised to at least 1, and with the
/// presentation mode as before. The round trip queues the release of the
/// old surface, if one was bound, and the creation of the new one, and so
/// keeps the instance, the adapter, the device and the queue.
pub proof fn lemma_suspend_resume_round_trip(
    context: GraphicsContextView,
    window_size: PhysicalSize,
)
    ensures
        !context.suspend().ready(),
        context.suspend().config == context.config,
        context.suspend().resume(window_size).ready(),
        context.suspend().resume(window_size).wf(),
        context.suspend().resume(window_size).config == configuration_for(
            window_size,
            context.config.present_mode,
        ),
        context.suspend().resume(window_size).surface == Some(
            Surface { configuration: configuration_for(window_size, context.config.present_mode) },
        ),
        context.suspend().resume(window_size).config.width >= MIN_WINDOW_SIZE,
        context.suspend().resume(window_size).config.height >= MIN_WINDOW_SIZE,
        context.suspend().resume(window_size).commands == context.commands + (if context.ready() {
            seq![GpuCommand::ReleaseSurface]
        } else {
            Seq::empty()
        }) + seq![
            GpuCommand::CreateSurface(configuration_for(window_size, context.config.present_mode)),
        ],
        context.device_kept(context.suspend()),
        context.device_kept(context.suspend().resume(window_size)),
{
}

} // verus!
