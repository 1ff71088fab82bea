//! The lifecycle of the application as a state machine over the
//! platform's events, with the count of the hook calls made so far.

use vstd::prelude::*;

verus! {

/// Where the application stands with its window and its surface.
#[derive(Copy, Clone, Debug, PartialEq, Eq, Structural)]
pub enum Phase {
    /// No window yet.
    Uninitialized,
    /// A window without a renderer. The first resume passes through this
    /// phase and does not rest in it.
    WindowCreated,
    /// Window, renderer and surface: frames can be driven.
    Running,
    /// The surface was let go; the device is kept. No frame is driven.
    Suspended,
}

/// The platform's events, as far as the lifecycle depends on them.
#[derive(Copy, Clone, Debug, PartialEq, Eq, Structural)]
pub enum LifecycleEvent {
    Resumed,
    Suspended,
    AboutToWait,
    Resized,
    CloseRequested,
    Exiting,
    /// Any other window event.
    Other,
}

/// The phase, whether the application is exiting, and how often each hook
/// has been called.
pub struct Lifecycle {
    pub phase: Phase,
    /// Termination was asked for, or announced. This is final: it is
    /// never taken back, and no frame is driven any more. Window, renderer
    /// and surface still follow the platform's events.
    pub exiting: bool,
    pub starts: nat,
    pub updates: nat,
}

impl Lifecycle {
    pub open spec fn initial() -> Lifecycle {
        Lifecycle { phase: Phase::Uninitialized, exiting: false, starts: 0, updates: 0 }
    }

    /// A frame tick would be driven now: the application is running and
    /// is not exiting.
    pub open spec fn ticking(self) -> bool {
        self.phase == Phase::Running && !self.exiting
    }

    /// The lifecycle after one event.
    ///
    /// The first resume creates window and renderer and calls `start`;
    /// every later one only binds a surface again. A tick, on the idle
    /// event or right after a resize, calls `update`, and only while
    /// running and not exiting. A close request, like the announcement of
    /// the exit, ends the ticks and nothing else.
    pub open spec fn on(self, event: LifecycleEvent) -> Lifecycle {
        match event {
            LifecycleEvent::Resumed => Lifecycle {
                phase: Phase::Running,
                starts: if self.phase == Phase::Uninitialized {
                    self.starts + 1
                } else {
                    self.starts
                },
                ..self
            },
            LifecycleEvent::Suspended => Lifecycle {
                phase: if self.phase == Phase::Running {
                    Phase::Suspended
                } else {
                    self.phase
                },
                ..self
            },
            LifecycleEvent::AboutToWait | LifecycleEvent::Resized => Lifecycle {
                updates: if self.ticking() {
                    self.updates + 1
                } else {
                    self.updates
                },
                ..self
            },
            LifecycleEvent::CloseRequested | LifecycleEvent::Exiting => Lifecycle {
                exiting: true,
                ..self
            },
            LifecycleEvent::Other => self,
        }
    }

    /// The lifecycle after a sequence of events, first to last.
    pub open spec fn run(self, events: Seq<LifecycleEvent>) -> Lifecycle
        decreases events.len(),
    {
        if events.len() == 0 {
            self
        } else {
            self.run(events.drop_last()).on(events.last())
        }
    }

    /// What holds of every lifecycle that began uninitialized: before the
    /// first resume no hook has been called; from the first resume on,
    /// `start` has been called exactly once; and `update` is never ahead
    /// of `start`.
    pub open spec fn inv(self) -> bool {
        &&& self.starts <= 1
        &&& self.updates > 0 ==> self.starts == 1
        &&& self.phase == Phase::Uninitialized ==> self.starts == 0
        &&& self.phase == Phase::Running || self.phase == Phase::Suspended ==> self.starts == 1
        &&& self.phase != Phase::WindowCreated
    }
}

/// An event keeps the invariant.
pub proof fn lemma_on_keeps_inv(l: Lifecycle, event: LifecycleEvent)
    requires
        l.inv(),
    ensures
        l.on(event).inv(),
{
}

/// Whatever events arrive, in whatever order, `start` is called at most
/// once, and no `update` is called before it.
pub proof fn lemma_start_once_and_first(events: Seq<LifecycleEvent>)
    ensures
        Lifecycle::initial().run(events).inv(),
        Lifecycle::initial().run(events).starts <= 1,
        Lifecycle::initial().run(events).updates > 0 ==> Lifecycle::initial().run(events).starts
            == 1,
    decreases events.len(),
{
    if events.len() > 0 {
        lemma_start_once_and_first(events.drop_last());
        lemma_on_keeps_inv(Lifecycle::initial().run(events.drop_last()), events.last());
    }
}

/// `start` is called by the first resume and by nothing else. Whatever
/// events arrive, a close request or the announcement of the exit among
/// them, and in whatever order: with a resume among them `start` has been
/// called exactly once; without one it has not been called, no `update`
/// has been either, and the application is still uninitialized.
pub proof fn lemma_start_with_first_resume(events: Seq<LifecycleEvent>)
    ensures
        events.contains(LifecycleEvent::Resumed) ==> Lifecycle::initial().run(events).starts == 1,
        events.contains(LifecycleEvent::Resumed) ==> Lifecycle::initial().run(events).phase
            != Phase::Uninitialized,
        !events.contains(LifecycleEvent::Resumed) ==> {
            &&& Lifecycle::initial().run(events).starts == 0
            &&& Lifecycle::initial().run(events).updates == 0
            &&& Lifecycle::initial().run(events).phase == Phase::Uninitialized
        },
    decreases events.len(),
{
    if events.len() > 0 {
        let before = events.drop_last();
        lemma_start_with_first_resume(before);
        lemma_start_once_and_first(before);
        if before.contains(LifecycleEvent::Resumed) {
            let i = choose|i: int| 0 <= i < before.len() && before[i] == LifecycleEvent::Resumed;
            assert(events[i] == LifecycleEvent::Resumed);
        }
        if events.last() == LifecycleEvent::Resumed {
            assert(events[events.len() - 1] == LifecycleEvent::Resumed);
        }
        if events.contains(LifecycleEvent::Resumed) && events.last() != LifecycleEvent::Resumed {
            let j = choose|j: int| 0 <= j < events.len() && events[j] == LifecycleEvent::Resumed;
            assert(before[j] == LifecycleEvent::Resumed);
        }
    }
}

/// Once window and renderer exist, `start` has been called exactly once,
/// and no number of further events, resumes among them, adds a call.
pub proof fn lemma_resumes_do_not_restart(l: Lifecycle, events: Seq<LifecycleEvent>)
    requires
        l.inv(),
        l.phase == Phase::Running || l.phase == Phase::Suspended,
    ensures
        l.run(events).starts == 1,
        l.run(events).inv(),
        l.run(events).phase != Phase::Uninitialized,
    decreases events.len(),
{
    if events.len() > 0 {
        lemma_resumes_do_not_restart(l, events.drop_last());
    }
}

/// A resume that finds no window calls `start`, once, and brings the
/// application to the running phase; it calls no `update`. That the
/// application is exiting makes no difference to it.
pub proof fn lemma_first_resume_starts(l: Lifecycle)
    requires
        l.phase == Phase::Uninitialized,
    ensures
        l.on(LifecycleEvent::Resumed).phase == Phase::Running,
        l.on(LifecycleEvent::Resumed).starts == l.starts + 1,
        l.on(LifecycleEvent::Resumed).updates == l.updates,
        l.on(LifecycleEvent::Resumed).exiting == l.exiting,
{
}

/// `update` is called by a tick of an application that is running and not
/// exiting, and by nothing else: never without a renderer, never while
/// suspended, never once exiting.
pub proof fn lemma_update_only_while_ticking(l: Lifecycle, event: LifecycleEvent)
    ensures
        l.on(event).updates == l.updates + 1 <==> l.ticking() && (event
            == LifecycleEvent::AboutToWait || event == LifecycleEvent::Resized),
        l.on(event).updates == l.updates || l.on(event).updates == l.updates + 1,
{
}

/// Exiting is final: no event takes it back, and no event calls `update`
/// any more.
pub proof fn lemma_exiting_is_final(l: Lifecycle, events: Seq<LifecycleEvent>)
    requires
        l.exiting,
    ensures
        l.run(events).exiting,
        l.run(events).updates == l.updates,
    decreases events.len(),
{
    if events.len() > 0 {
        lemma_exiting_is_final(l, events.drop_last());
    }
}

} // verus!
