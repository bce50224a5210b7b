//! The decisions of the host's event loop: each event, at a time on the
//! monotonic clock, becomes the actions the host performs next.
use vstd::prelude::*;
use crate::scheduler::{Decision, FrameScheduler, NANOS_PER_SEC};
use crate::surface::{SurfaceConfig, SurfaceState};

verus! {

/// An event delivered by the window system.
#[derive(Clone, Copy, Debug, PartialEq, Eq, Structural)]
pub enum LoopEvent {
    /// A wake-up with no event of its own (a timer, or new events pending).
    Wake,
    /// The window now measures `width` by `height` physical pixels.
    Resized { width: u32, height: u32 },
    CloseRequested,
    /// The redraw asked for earlier is being delivered.
    RedrawRequested,
    /// Any other event (pointer input and the like).
    Other,
}

/// What the host does after one event.
#[derive(Clone, Copy, Debug, PartialEq, Eq, Structural)]
pub struct LoopActions {
    /// Ask the window for a redraw.
    pub request_redraw: bool,
    /// Advance the game state by one step.
    pub tick: bool,
    /// Configure the surface with this configuration before anything else.
    pub reconfigure: Option<SurfaceConfig>,
    /// Render a frame now.
    pub render: bool,
    /// Leave the event loop.
    pub exit: bool,
    /// Sleep until this time, or until the next event.
    pub wait_until: u64,
}

/// The loop's state: the frame pacing, the surface, and whether it has ended.
#[derive(Clone, Copy, Debug, PartialEq, Eq, Structural)]
pub struct GameLoop {
    pub scheduler: FrameScheduler,
    pub surface: SurfaceState,
    pub exited: bool,
}

impl GameLoop {
    pub open spec fn wf(&self) -> bool {
        self.scheduler.wf()
    }

    /// A loop that starts at `now` with a surface configured as `config`,
    /// rendering `render_hz` and ticking `tick_hz` times a second. `None` when
    /// a rate is zero or faster than the clock resolves, or a first deadline
    /// would not fit the clock.
    pub fn new(render_hz: u32, tick_hz: u32, now: u64, config: SurfaceConfig) -> (r: Option<GameLoop>)
        ensures
            r is Some <==> {
                &&& 0 < render_hz <= NANOS_PER_SEC
                &&& 0 < tick_hz <= NANOS_PER_SEC
                &&& now + NANOS_PER_SEC / (render_hz as u64) <= u64::MAX
                &&& now + NANOS_PER_SEC / (tick_hz as u64) <= u64::MAX
            },
            r matches Some(l) ==> {
                &&& l.wf()
                &&& l.scheduler.render_interval == NANOS_PER_SEC / (render_hz as u64)
                &&& l.scheduler.tick_interval == NANOS_PER_SEC / (tick_hz as u64)
                &&& l.scheduler.last_render_at == now
                &&& l.scheduler.last_tick_at == now
                &&& l.surface == SurfaceState::new_spec(config)
                &&& !l.exited
            },
    {
        let render_interval = match FrameScheduler::interval_for_rate(render_hz) {
            Some(i) => i,
            None => return None,
        };
        let tick_interval = match FrameScheduler::interval_for_rate(tick_hz) {
            Some(i) => i,
            None => return None,
        };
        if render_interval > u64::MAX - now || tick_interval > u64::MAX - now {
            return None;
        }
        Some(
            GameLoop {
                scheduler: FrameScheduler::new(render_interval, tick_interval, now),
                surface: SurfaceState::new(config),
                exited: false,
            },
        )
    }

    /// Handles one event at `now`. Once the loop has ended nothing more is
    /// done. Otherwise every event is a stimulus to the pacing (a due redraw is
    /// requested, a due tick taken, and the next deadline set); a resize
    /// configures the surface for the new size at once; a close request ends
    /// the loop; a delivered redraw renders, provided the surface matches the
    /// window.
    pub fn run(&mut self, event: LoopEvent, now: u64) -> (r: LoopActions)
        requires
            old(self).wf(),
            old(self).scheduler.fits_clock(now),
        ensures
            final(self).wf(),
            old(self).exited ==> *final(self) == *old(self) && r == (LoopActions {
                request_redraw: false,
                tick: false,
                reconfigure: None,
                render: false,
                exit: true,
                wait_until: old(self).scheduler.deadline_spec() as u64,
            }),
            !old(self).exited ==> {
                let d: Decision = old(self).scheduler.decision_spec(now);
                &&& final(self).scheduler == old(self).scheduler.step_spec(now)
                &&& r.request_redraw == d.redraw
                &&& r.tick == d.tick
                &&& r.wait_until == d.deadline
                &&& final(self).exited == (event == LoopEvent::CloseRequested)
                &&& r.exit == final(self).exited
                &&& match event {
                    LoopEvent::Resized { width, height } => {
                        &&& final(self).surface == old(self).surface.resized_spec(width, height)
                            .reconfigured_spec(width, height)
                        &&& r.reconfigure == Some(final(self).surface.config)
                        &&& !r.render
                    },
                    LoopEvent::RedrawRequested => {
                        &&& final(self).surface == old(self).surface
                        &&& r.reconfigure is None
                        &&& r.render == old(self).surface.is_current()
                    },
                    _ => {
                        &&& final(self).surface == old(self).surface
                        &&& r.reconfigure is None
                        &&& !r.render
                    },
                }
            },
    {
        if self.exited {
            return LoopActions {
                request_redraw: false,
                tick: false,
                reconfigure: None,
                render: false,
                exit: true,
                wait_until: self.scheduler.next_deadline(),
            };
        }
        let d = self.scheduler.on_stimulus(now);
        let mut reconfigure: Option<SurfaceConfig> = None;
        let mut render = false;
        match event {
            LoopEvent::Resized { width, height } => {
                self.surface.window_resized(width, height);
                reconfigure = Some(self.surface.reconfigure(width, height));
            },
            LoopEvent::CloseRequested => {
                self.exited = true;
            },
            LoopEvent::RedrawRequested => {
                render = self.surface.check_acquire().is_ok();
            },
            _ => {},
        }
        LoopActions {
            request_redraw: d.redraw,
            tick: d.tick,
            reconfigure,
            render,
            exit: self.exited,
            wait_until: d.deadline,
        }
    }
}

} // verus!
