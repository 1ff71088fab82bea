//! The frame driver: what the application does on each of the platform's
//! lifecycle events.
//!
//! The platform layer owns the event loop and the window. It calls one
//! handler per event, one at a time, hands over what it has read from the
//! window, and afterwards carries out the commands that the renderer has
//! queued.

use vstd::prelude::*;
use crate::config::ResolutionConfig;
use crate::config::WindowConfig;
use crate::gameloop::EngineContext;
use crate::gameloop::GameLoop;
use crate::graphics::GpuCommand;
use crate::graphics::PhysicalSize;
use crate::graphics::WgpuRenderer;
use crate::graphics::WgpuRendererView;
use crate::lifecycle::Lifecycle;
use crate::lifecycle::LifecycleEvent;
use crate::lifecycle::Phase;
use crate::time::Time;
use crate::time::TimeView;

verus! {

/// How a window fills the screen.
#[derive(Copy, Clone, Debug, PartialEq, Eq, Structural)]
pub enum Fullscreen {
    /// Without borders, on the monitor that the window is on.
    Borderless,
}

/// What a window is created with.
#[derive(Debug)]
pub struct WindowAttributes {
    pub title: String,
    pub inner_size: ResolutionConfig,
    pub min_inner_size: ResolutionConfig,
    /// `None` for a window that is not fullscreen.
    pub fullscreen: Option<Fullscreen>,
}

/// The attributes of the window that a configuration asks for.
pub open spec fn window_attributes(config: WindowConfig) -> WindowAttributes {
    WindowAttributes {
        title: config.title_name,
        inner_size: config.resolution,
        min_inner_size: config.min_resolution,
        fullscreen: if config.fullscreen {
            Some(Fullscreen::Borderless)
        } else {
            None
        },
    }
}

/// An event of the window.
#[derive(Copy, Clone, Debug, PartialEq, Eq, Structural)]
pub enum WindowEvent {
    /// The window has a new pixel size.
    Resized(PhysicalSize),
    /// The user asked for the window to be closed.
    CloseRequested,
    /// Any other event.
    Other,
}

impl WindowEvent {
    /// What the event is to the lifecycle.
    pub open spec fn lifecycle_event(self) -> LifecycleEvent {
        match self {
            WindowEvent::Resized(_) => LifecycleEvent::Resized,
            WindowEvent::CloseRequested => LifecycleEvent::CloseRequested,
            WindowEvent::Other => LifecycleEvent::Other,
        }
    }
}

/// What the event loop is to do after an event.
#[derive(Copy, Clone, Debug, PartialEq, Eq, Structural)]
pub enum LoopRequest {
    /// Go on dispatching.
    Continue,
    /// Terminate.
    Exit,
}

/// The application as the contracts see it.
pub struct AppView {
    pub lifecycle: Lifecycle,
    pub timer: TimeView,
    /// The renderer, once the first resume has made it.
    pub renderer: Option<WgpuRendererView>,
    /// The attributes that the window was created with, once it exists.
    pub window: Option<WindowAttributes>,
    pub window_config: WindowConfig,
    /// The renderer as it was handed to the hook called last.
    pub handed: Option<WgpuRendererView>,
    /// The clock as it was handed to the hook called last.
    pub handed_timer: Option<TimeView>,
    /// The renderer as the hook called last left it.
    pub returned: Option<WgpuRendererView>,
}

impl AppView {
    /// Frames are driven: the application is running and is not exiting.
    pub open spec fn running(self) -> bool {
        self.lifecycle.ticking()
    }

    /// Termination was asked for, or announced.
    pub open spec fn exiting(self) -> bool {
        self.lifecycle.exiting
    }

    /// The phase fits what exists: no window before the first resume, a
    /// window and a renderer from then on.
    pub open spec fn wf(self) -> bool {
        &&& self.lifecycle.phase == Phase::Uninitialized ==> self.window is None
        &&& self.lifecycle.phase == Phase::WindowCreated ==> self.window is Some && self.renderer
            is None
        &&& self.lifecycle.phase == Phase::Running || self.lifecycle.phase == Phase::Suspended
            ==> self.window is Some && self.renderer is Some
    }

    /// The renderer after a resize, where there is one.
    pub open spec fn resized_renderer(self, new_size: PhysicalSize) -> Option<WgpuRendererView> {
        match self.renderer {
            Some(renderer) => Some(renderer.resize(new_size)),
            None => None,
        }
    }

    /// The renderer that a first resume makes for a window of this size.
    pub open spec fn first_renderer(self, window_size: PhysicalSize) -> WgpuRendererView {
        WgpuRendererView::initial(
            window_size,
            self.window_config.vsync_mode,
            self.window_config.power_preference,
        )
    }
}

/// The `update` hook is only ever called with a window and a renderer in
/// place: an event that calls it finds the application running.
pub proof fn lemma_update_needs_renderer(app: AppView, event: LifecycleEvent)
    requires
        app.wf(),
    ensures
        app.lifecycle.on(event).updates != app.lifecycle.updates ==> app.running()
            && app.window is Some && app.renderer is Some,
{
}

/// The application: the clock, the program's hooks, the renderer, and what
/// is known of the window.
pub struct App {
    timer: Time,
    game: Box<dyn GameLoop>,
    wr: Option<WgpuRenderer>,
    window: Option<WindowAttributes>,
    window_config: WindowConfig,
    suspended: bool,
    exit_requested: bool,
    starts: Ghost<nat>,
    updates: Ghost<nat>,
    handed: Ghost<Option<WgpuRendererView>>,
    handed_timer: Ghost<Option<TimeView>>,
    returned: Ghost<Option<WgpuRendererView>>,
}

impl View for App {
    type V = AppView;

    closed spec fn view(&self) -> AppView {
        AppView {
            lifecycle: Lifecycle {
                phase: self.spec_phase(),
                exiting: self.exit_requested,
                starts: self.starts@,
                updates: self.updates@,
            },
            timer: self.timer@,
            renderer: match self.wr {
                Some(renderer) => Some(renderer@),
                None => None,
            },
            window: self.window,
            window_config: self.window_config,
            handed: self.handed@,
            handed_timer: self.handed_timer@,
            returned: self.returned@,
        }
    }
}

impl App {
    closed spec fn spec_phase(&self) -> Phase {
        if self.window is None {
            Phase::Uninitialized
        } else if self.wr is None {
            Phase::WindowCreated
        } else if self.suspended {
            Phase::Suspended
        } else {
            Phase::Running
        }
    }

    /// Every application's phase fits what exists in it.
    pub proof fn lemma_view_wf(&self)
        ensures
            self@.wf(),
    {
    }

    /// An application that has seen no event, with a clock started now.
    pub fn new<G: GameLoop + 'static>(game: G, window_config: WindowConfig) -> (app: App)
        ensures
            app@.lifecycle == Lifecycle::initial(),
            app@.lifecycle.inv(),
            app@.timer == TimeView::started(0),
            app@.renderer is None,
            app@.window is None,
            app@.window_config == window_config,
            app@.handed is None,
            app@.handed_timer is None,
            app@.returned is None,
    {
        App::with_timer(game, window_config, Time::new())
    }

    /// An application that has seen no event, with the given clock.
    pub fn with_timer<G: GameLoop + 'static>(
        game: G,
        window_config: WindowConfig,
        timer: Time,
    ) -> (app: App)
        ensures
            app@.lifecycle == Lifecycle::initial(),
            app@.lifecycle.inv(),
            app@.timer == timer@,
            app@.renderer is None,
            app@.window is None,
            app@.window_config == window_config,
            app@.handed is None,
            app@.handed_timer is None,
            app@.returned is None,
    {
        App {
            timer,
            game: Box::new(game),
            wr: None,
            window: None,
            window_config,
            suspended: false,
            exit_requested: false,
            starts: Ghost(0),
            updates: Ghost(0),
            handed: Ghost(None),
            handed_timer: Ghost(None),
            returned: Ghost(None),
        }
    }

    /// Whether termination was asked for, or announced.
    pub fn is_exiting(&self) -> (exiting: bool)
        ensures
            exiting == self@.lifecycle.exiting,
    {
        self.exit_requested
    }

    /// Where the application stands with its window and its surface.
    pub fn phase(&self) -> (phase: Phase)
        ensures
            phase == self@.lifecycle.phase,
    {
        if self.window.is_none() {
            Phase::Uninitialized
        } else if self.wr.is_none() {
            Phase::WindowCreated
        } else if self.suspended {
            Phase::Suspended
        } else {
            Phase::Running
        }
    }

    /// The frame clock.
    pub fn timer(&self) -> (timer: &Time)
        ensures
            timer@ == self@.timer,
    {
        &self.timer
    }

    /// The renderer, once the first resume has made it.
    pub fn renderer(&self) -> (renderer: Option<&WgpuRenderer>)
        ensures
            renderer is Some == self@.renderer is Some,
            renderer matches Some(r) ==> self@.renderer == Some(r@),
    {
        self.wr.as_ref()
    }

    /// The attributes that the window was created with, once it exists.
    pub fn window(&self) -> (window: Option<&WindowAttributes>)
        ensures
            window is Some == self@.window is Some,
            window matches Some(w) ==> self@.window == Some(*w),
    {
        self.window.as_ref()
    }

    /// The options that the application was made with.
    pub fn window_config(&self) -> (config: &WindowConfig)
        ensures
            *config == self@.window_config,
    {
        &self.window_config
    }

    /// The window that the platform layer has to create before it reports
    /// a resume: one with the configured title, size, smallest size and
    /// fullscreen mode while the application has no window, none once it
    /// has one.
    pub fn init_window(&self) -> (attributes: Option<WindowAttributes>)
        ensures
            attributes is Some <==> self@.lifecycle.phase == Phase::Uninitialized,
            attributes matches Some(a) ==> a == window_attributes(self@.window_config),
    {
        if self.window.is_some() {
            None
        } else {
            Some(self.window_attributes())
        }
    }

    fn window_attributes(&self) -> (attributes: WindowAttributes)
        ensures
            attributes == window_attributes(self.window_config),
    {
        let fullscreen = if self.window_config.fullscreen {
            Some(Fullscreen::Borderless)
        } else {
            None
        };
        WindowAttributes {
            title: self.window_config.title_name.clone(),
            inner_size: self.window_config.resolution,
            min_inner_size: self.window_config.min_resolution,
            fullscreen,
        }
    }

    fn init_wr(&mut self, window_size: PhysicalSize)
        ensures
            final(self).wr matches Some(renderer) && renderer@ == old(self)@.first_renderer(
                window_size,
            ),
            final(self).timer == old(self).timer,
            final(self).window == old(self).window,
            final(self).window_config == old(self).window_config,
            final(self).suspended == old(self).suspended,
            final(self).exit_requested == old(self).exit_requested,
            final(self).starts == old(self).starts,
            final(self).updates == old(self).updates,
            final(self).handed == old(self).handed,
            final(self).handed_timer == old(self).handed_timer,
            final(self).returned == old(self).returned,
    {
        self.wr = Some(WgpuRenderer::new(window_size, &self.window_config));
    }

    /// Calls the `start` hook with the clock and the renderer.
    fn start_game(&mut self)
        requires
            old(self).wr is Some,
        ensures
            final(self).starts@ == old(self).starts@ + 1,
            final(self).handed@ == Some(old(self).wr->0@),
            final(self).handed_timer@ == Some(old(self).timer@),
            final(self).wr matches Some(renderer) && final(self).returned@ == Some(renderer@),
            final(self).timer == old(self).timer,
            final(self).window == old(self).window,
            final(self).window_config == old(self).window_config,
            final(self).suspended == old(self).suspended,
            final(self).exit_requested == old(self).exit_requested,
            final(self).updates == old(self).updates,
    {
        proof {
            self.handed@ = Some(self.wr->0@);
            self.handed_timer@ = Some(self.timer@);
            self.starts@ = self.starts@ + 1;
        }
        match &mut self.wr {
            Some(renderer) => {
                let mut c = EngineContext { timer: &self.timer, renderer };
                self.game.start(&mut c);
            },
            None => {},
        }
        proof {
            self.returned@ = Some(self.wr->0@);
        }
    }

    /// Calls the `update` hook with the clock and the renderer.
    fn update_game(&mut self)
        requires
            old(self).wr is Some,
        ensures
            final(self).updates@ == old(self).updates@ + 1,
            final(self).handed@ == Some(old(self).wr->0@),
            final(self).handed_timer@ == Some(old(self).timer@),
            final(self).wr matches Some(renderer) && final(self).returned@ == Some(renderer@),
            final(self).timer == old(self).timer,
            final(self).window == old(self).window,
            final(self).window_config == old(self).window_config,
            final(self).suspended == old(self).suspended,
            final(self).exit_requested == old(self).exit_requested,
            final(self).starts == old(self).starts,
    {
        proof {
            self.handed@ = Some(self.wr->0@);
            self.handed_timer@ = Some(self.timer@);
            self.updates@ = self.updates@ + 1;
        }
        match &mut self.wr {
            Some(renderer) => {
                let mut c = EngineContext { timer: &self.timer, renderer };
                self.game.update(&mut c);
            },
            None => {},
        }
        proof {
            self.returned@ = Some(self.wr->0@);
        }
    }

    /// Presents a frame, cleared to the configured colour, where the
    /// renderer has a surface to present to.
    fn renderer_update(&mut self)
        ensures
            final(self).wr is Some == old(self).wr is Some,
            old(self).wr matches Some(renderer) ==> final(self).wr->0@ == renderer@.present(
                old(self).window_config.clear_color,
            ),
            final(self).timer == old(self).timer,
            final(self).window == old(self).window,
            final(self).window_config == old(self).window_config,
            final(self).suspended == old(self).suspended,
            final(self).exit_requested == old(self).exit_requested,
            final(self).starts == old(self).starts,
            final(self).updates == old(self).updates,
            final(self).handed == old(self).handed,
            final(self).handed_timer == old(self).handed_timer,
            final(self).returned == old(self).returned,
    {
        match &mut self.wr {
            Some(renderer) => {
                renderer.present(self.window_config.clear_color);
            },
            None => {},
        }
    }

    /// The platform resumed the application, and the window, created just
    /// now if `init_window` asked for one, has the pixel size
    /// `window_size`.
    ///
    /// The first resume records the window, makes the renderer for it and
    /// calls the `start` hook with the clock and that renderer. A later
    /// resume binds a new surface, sized to the window as it is now, and
    /// calls no hook. The clock is not touched. A close request that came
    /// before changes none of this.
    ///
    /// What a resume queues for the GPU is carried out by the platform
    /// layer once this call has returned. On the first resume that is
    /// after `start` has run: `start` sees the renderer's state as it is
    /// decided here, and a failure to acquire the GPU comes after it.
    pub fn resumed(&mut self, window_size: PhysicalSize)
        ensures
            final(self)@.lifecycle == old(self)@.lifecycle.on(LifecycleEvent::Resumed),
            final(self)@.lifecycle.phase == Phase::Running,
            final(self)@.lifecycle.exiting == old(self)@.lifecycle.exiting,
            final(self)@.lifecycle.starts == old(self)@.lifecycle.starts + if old(
                self,
            )@.lifecycle.phase == Phase::Uninitialized {
                1nat
            } else {
                0nat
            },
            final(self)@.lifecycle.updates == old(self)@.lifecycle.updates,
            old(self)@.lifecycle.inv() ==> final(self)@.lifecycle.inv(),
            final(self)@.timer == old(self)@.timer,
            final(self)@.window_config == old(self)@.window_config,
            final(self)@.renderer is Some,
            old(self)@.window is None ==> {
                &&& final(self)@.window == Some(window_attributes(old(self)@.window_config))
                &&& final(self)@.handed == Some(old(self)@.first_renderer(window_size))
                &&& final(self)@.handed_timer == Some(old(self)@.timer)
                &&& final(self)@.renderer == final(self)@.returned
            },
            old(self)@.window is Some ==> {
                &&& final(self)@.window == old(self)@.window
                &&& final(self)@.handed == old(self)@.handed
                &&& final(self)@.handed_timer == old(self)@.handed_timer
                &&& final(self)@.returned == old(self)@.returned
                &&& final(self)@.renderer == Some(
                    match old(self)@.renderer {
                        Some(renderer) => renderer.resume(window_size),
                        None => old(self)@.first_renderer(window_size),
                    },
                )
            },
    {
        if self.window.is_some() {
            if self.wr.is_some() {
                match &mut self.wr {
                    Some(renderer) => {
                        renderer.context.resume(window_size);
                    },
                    None => {},
                }
            } else {
                self.init_wr(window_size);
            }
            self.suspended = false;
        } else {
            self.window = Some(self.window_attributes());
            self.init_wr(window_size);
            self.suspended = false;
            self.start_game();
        }
    }

    /// The event loop is about to wait: one frame tick, at the host
    /// clock's present reading, which is then the clock's last reading.
    pub fn about_to_wait(&mut self)
        ensures
            final(self)@.lifecycle == old(self)@.lifecycle.on(LifecycleEvent::AboutToWait),
            final(self)@.lifecycle.starts == old(self)@.lifecycle.starts,
            final(self)@.lifecycle.updates == old(self)@.lifecycle.updates + if old(
                self,
            )@.running() {
                1nat
            } else {
                0nat
            },
            old(self)@.lifecycle.inv() ==> final(self)@.lifecycle.inv(),
            final(self)@.window == old(self)@.window,
            final(self)@.window_config == old(self)@.window_config,
            !old(self)@.running() ==> final(self)@ == old(self)@,
            old(self)@.running() ==> {
                &&& final(self)@.timer == old(self)@.timer.update(final(self)@.timer.last_time)
                &&& final(self)@.timer.last_time >= old(self)@.timer.start_time
                &&& final(self)@.handed == old(self)@.renderer
                &&& final(self)@.handed_timer == Some(final(self)@.timer)
                &&& final(self)@.returned matches Some(returned) && final(self)@.renderer == Some(
                    returned.present(old(self)@.window_config.clear_color),
                )
            },
    {
        let now = self.timer.now();
        self.about_to_wait_at(now);
    }

    /// The event loop is about to wait, and the host's clock reads `now`:
    /// one frame tick if the application is running and not exiting,
    /// nothing otherwise. In a tick the clock is updated to `now`, then
    /// the `update` hook is called with the updated clock and with the
    /// renderer as it stood, then a frame is presented with the renderer
    /// as the hook left it.
    pub fn about_to_wait_at(&mut self, now: u128)
        ensures
            final(self)@.lifecycle == old(self)@.lifecycle.on(LifecycleEvent::AboutToWait),
            final(self)@.lifecycle.starts == old(self)@.lifecycle.starts,
            final(self)@.lifecycle.updates == old(self)@.lifecycle.updates + if old(
                self,
            )@.running() {
                1nat
            } else {
                0nat
            },
            old(self)@.lifecycle.inv() ==> final(self)@.lifecycle.inv(),
            final(self)@.window == old(self)@.window,
            final(self)@.window_config == old(self)@.window_config,
            !old(self)@.running() ==> final(self)@ == old(self)@,
            old(self)@.running() ==> {
                &&& final(self)@.timer == old(self)@.timer.update(now as nat)
                &&& final(self)@.handed == old(self)@.renderer
                &&& final(self)@.handed_timer == Some(old(self)@.timer.update(now as nat))
                &&& final(self)@.returned matches Some(returned) && final(self)@.renderer == Some(
                    returned.present(old(self)@.window_config.clear_color),
                )
            },
    {
        if !self.exit_requested && self.window.is_some() && self.wr.is_some() && !self.suspended {
            self.timer.update_at(now);
            self.update_game();
            self.renderer_update();
        }
    }

    /// A window event at the host clock's present reading.
    pub fn window_event(&mut self, event: WindowEvent) -> (request: LoopRequest)
        ensures
            request == LoopRequest::Exit <==> event == WindowEvent::CloseRequested,
            final(self)@.lifecycle == old(self)@.lifecycle.on(event.lifecycle_event()),
            final(self)@.lifecycle.starts == old(self)@.lifecycle.starts,
            final(self)@.lifecycle.updates == old(self)@.lifecycle.updates + if old(
                self,
            )@.running() && event is Resized {
                1nat
            } else {
                0nat
            },
            old(self)@.lifecycle.inv() ==> final(self)@.lifecycle.inv(),
            final(self)@.window == old(self)@.window,
            final(self)@.window_config == old(self)@.window_config,
            event == WindowEvent::Other ==> final(self)@ == old(self)@,
            event == WindowEvent::CloseRequested ==> final(self)@ == (AppView {
                lifecycle: Lifecycle { exiting: true, ..old(self)@.lifecycle },
                ..old(self)@
            }),
            event matches WindowEvent::Resized(size) ==> !old(self)@.running() ==> {
                &&& final(self)@.timer == old(self)@.timer
                &&& final(self)@.renderer == old(self)@.resized_renderer(size)
                &&& final(self)@.handed == old(self)@.handed
                &&& final(self)@.handed_timer == old(self)@.handed_timer
                &&& final(self)@.returned == old(self)@.returned
            },
            event matches WindowEvent::Resized(size) ==> old(self)@.running() ==> {
                &&& final(self)@.timer == old(self)@.timer.update(final(self)@.timer.last_time)
                &&& final(self)@.timer.last_time >= old(self)@.timer.start_time
                &&& final(self)@.handed == old(self)@.resized_renderer(size)
                &&& final(self)@.handed_timer == Some(final(self)@.timer)
                &&& final(self)@.returned matches Some(returned) && final(self)@.renderer == Some(
                    returned.present(old(self)@.window_config.clear_color),
                )
            },
    {
        let now = self.timer.now();
        self.window_event_at(event, now)
    }

    /// A window event while the host's clock reads `now`.
    ///
    /// A resize goes to the renderer, if there is one, and is followed at
    /// once by a frame tick, if the application is running and not
    /// exiting, so that the frame shows the new size: the clock is updated
    /// to `now`, and the `update` hook is handed the updated clock and the
    /// resized renderer. A close request asks the event loop to terminate,
    /// and no tick is driven after it; nothing else changes.
    pub fn window_event_at(&mut self, event: WindowEvent, now: u128) -> (request: LoopRequest)
        ensures
            request == LoopRequest::Exit <==> event == WindowEvent::CloseRequested,
            final(self)@.lifecycle == old(self)@.lifecycle.on(event.lifecycle_event()),
            final(self)@.lifecycle.starts == old(self)@.lifecycle.starts,
            final(self)@.lifecycle.updates == old(self)@.lifecycle.updates + if old(
                self,
            )@.running() && event is Resized {
                1nat
            } else {
                0nat
            },
            old(self)@.lifecycle.inv() ==> final(self)@.lifecycle.inv(),
            final(self)@.window == old(self)@.window,
            final(self)@.window_config == old(self)@.window_config,
            event == WindowEvent::Other ==> final(self)@ == old(self)@,
            event == WindowEvent::CloseRequested ==> final(self)@ == (AppView {
                lifecycle: Lifecycle { exiting: true, ..old(self)@.lifecycle },
                ..old(self)@
            }),
            event matches WindowEvent::Resized(size) ==> !old(self)@.running() ==> {
                &&& final(self)@.timer == old(self)@.timer
                &&& final(self)@.renderer == old(self)@.resized_renderer(size)
                &&& final(self)@.handed == old(self)@.handed
                &&& final(self)@.handed_timer == old(self)@.handed_timer
                &&& final(self)@.returned == old(self)@.returned
            },
            event matches WindowEvent::Resized(size) ==> old(self)@.running() ==> {
                &&& final(self)@.timer == old(self)@.timer.update(now as nat)
                &&& final(self)@.handed == old(self)@.resized_renderer(size)
                &&& final(self)@.handed_timer == Some(old(self)@.timer.update(now as nat))
                &&& final(self)@.returned matches Some(returned) && final(self)@.renderer == Some(
                    returned.present(old(self)@.window_config.clear_color),
                )
            },
    {
        match event {
            WindowEvent::Resized(new_size) => {
                match &mut self.wr {
                    Some(renderer) => {
                        renderer.resize(new_size);
                    },
                    None => {},
                }
                self.about_to_wait_at(now);
                LoopRequest::Continue
            },
            WindowEvent::CloseRequested => {
                self.exit_requested = true;
                LoopRequest::Exit
            },
            WindowEvent::Other => LoopRequest::Continue,
        }
    }

    /// The platform suspended the application: the surface is let go, the
    /// device is kept, and no tick is driven until the next resume. A
    /// close request that came before changes none of this.
    pub fn suspended(&mut self)
        ensures
            final(self)@.lifecycle == old(self)@.lifecycle.on(LifecycleEvent::Suspended),
            final(self)@.lifecycle.starts == old(self)@.lifecycle.starts,
            final(self)@.lifecycle.updates == old(self)@.lifecycle.updates,
            old(self)@.lifecycle.inv() ==> final(self)@.lifecycle.inv(),
            final(self)@.timer == old(self)@.timer,
            final(self)@.window == old(self)@.window,
            final(self)@.window_config == old(self)@.window_config,
            final(self)@.handed == old(self)@.handed,
            final(self)@.handed_timer == old(self)@.handed_timer,
            final(self)@.returned == old(self)@.returned,
            final(self)@.renderer == match old(self)@.renderer {
                Some(renderer) => Some(renderer.suspend()),
                None => None,
            },
    {
        match &mut self.wr {
            Some(renderer) => {
                renderer.context.suspend();
            },
            None => {},
        }
        if self.wr.is_some() {
            self.suspended = true;
        }
    }

    /// The event loop is shutting down. No tick is driven from here on;
    /// nothing else changes.
    pub fn exiting(&mut self)
        ensures
            final(self)@ == (AppView {
                lifecycle: old(self)@.lifecycle.on(LifecycleEvent::Exiting),
                ..old(self)@
            }),
            final(self)@.exiting(),
            final(self)@.lifecycle.starts == old(self)@.lifecycle.starts,
            final(self)@.lifecycle.updates == old(self)@.lifecycle.updates,
            old(self)@.lifecycle.inv() ==> final(self)@.lifecycle.inv(),
    {
        self.exit_requested = true;
    }

    /// Hands over the commands that the renderer has queued, oldest first,
    /// and empties the queue. Without a renderer there are none.
    pub fn take_commands(&mut self) -> (commands: Vec<GpuCommand>)
        ensures
            commands@ == match old(self)@.renderer {
                Some(renderer) => renderer.context.commands,
                None => Seq::empty(),
            },
            final(self)@ == (AppView {
                renderer: match old(self)@.renderer {
                    Some(renderer) => Some(renderer.drained()),
                    None => None,
                },
                ..old(self)@
            }),
    {
        match &mut self.wr {
            Some(renderer) => renderer.take_commands(),
            None => Vec::new(),
        }
    }
}

} // verus!
