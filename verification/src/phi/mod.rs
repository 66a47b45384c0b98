//! The engine: geometry, input, graphics and the frame scheduler.

pub mod data;
pub mod events;
pub mod gfx;

use crate::phi::data::{GeometryError, MAX_ELAPSED, UNIT};
use crate::phi::events::Events;
use crate::phi::gfx::{ConfigurationError, Renderer};
use crate::views::ActiveView;
use vstd::prelude::*;

verus! {

/// Why a view could not be built or could not go on.
#[derive(Clone, Copy, Debug, PartialEq, Eq, Structural)]
pub enum ViewError {
    Configuration(ConfigurationError),
    Geometry(GeometryError),
}

/// What a view works with during one frame: the input and the drawing surface.
pub struct Phi {
    pub events: Events,
    pub renderer: Renderer,
}

impl Phi {
    /// Width and height of the output, in length units.
    pub open spec fn spec_output_size(&self) -> (i64, i64) {
        (
            (self.renderer.spec_output_size().0 * UNIT) as i64,
            (self.renderer.spec_output_size().1 * UNIT) as i64,
        )
    }

    /// A context made of the given input state and drawing surface.
    pub fn new(events: Events, renderer: Renderer) -> (phi: Phi)
        ensures
            phi.events == events,
            phi.renderer == renderer,
    {
        Phi { events, renderer }
    }

    /// Width and height of the output, in length units.
    pub fn output_size(&self) -> (size: (i64, i64))
        ensures
            size == self.spec_output_size(),
            size.0 == self.renderer.spec_output_size().0 * UNIT,
            size.1 == self.renderer.spec_output_size().1 * UNIT,
    {
        let (w, h) = self.renderer.output_size();
        (w as i64 * UNIT, h as i64 * UNIT)
    }
}

/// What a view asks of the main loop at the end of a frame.
#[derive(Clone, Debug)]
pub enum ViewAction {
    /// Show the frame and go on with the same view.
    Continue,
    /// Leave the main loop.
    Quit,
    /// Go on with another view.
    ChangeView(ActiveView),
}

/// A screen of the game: it advances by one frame and draws itself.
pub trait View: Sized {
    /// What holds of the view between frames.
    spec fn view_inv(&self) -> bool;

    /// Whether the view can advance by a frame of `elapsed`: a view in
    /// which time matters takes no time that runs backwards.
    spec fn accepts(&self, elapsed: i64) -> bool;

    /// `after`, `drawn` and `action` are what one frame of `elapsed` makes of
    /// the view `before` in the context `context`.
    spec fn rendered(
        before: Self,
        context: Phi,
        elapsed: i64,
        after: Self,
        drawn: Phi,
        action: Result<ViewAction, ViewError>,
    ) -> bool;

    /// Advances the view by one frame of `elapsed` and draws it.
    fn render(&mut self, context: &mut Phi, elapsed: i64) -> (action: Result<
        ViewAction,
        ViewError,
    >)
        requires
            old(self).view_inv(),
            old(self).accepts(elapsed),
        ensures
            final(self).view_inv(),
            Self::rendered(*old(self), *old(context), elapsed, *final(self), *final(context), action),
            action matches Ok(ViewAction::ChangeView(next)) ==> next.inv(),
    ;
}

/// The frames per second that the main loop aims at: the time between two
/// frames is a sixtieth of a second, which is no whole number of milliseconds.
pub const FRAME_RATE: u32 = 60;

/// The least whole number of milliseconds that is no shorter than the time
/// between two frames.
pub const INTERVAL: u32 = 17;

/// Whether a frame is due `dt` milliseconds after the last one: the time
/// between two frames, a second divided by `FRAME_RATE`, has passed.
pub open spec fn frame_due(dt: int) -> bool {
    FRAME_RATE * dt >= 1_000
}

/// On a clock of whole milliseconds a frame is due from `INTERVAL` on, and
/// `INTERVAL - dt` is the shortest sleep after which one is: after any
/// shorter `sleep` none is due yet.
pub proof fn lemma_interval(dt: int, sleep: int)
    ensures
        frame_due(dt) <==> dt >= INTERVAL,
        frame_due(dt + (INTERVAL - dt)),
        sleep < INTERVAL - dt ==> !frame_due(dt + sleep),
{
}

/// What the main loop does at one reading of the clock.
#[derive(Clone, Copy, Debug, PartialEq, Eq, Structural)]
pub enum Tick {
    /// It is too early for a frame: sleep for so many milliseconds and read
    /// the clock again.
    Wait(u32),
    /// A frame is due. `elapsed` is the time since the last frame; `fps`
    /// is the number of frames of the second that has just ended, if one has.
    Frame { elapsed: i64, fps: Option<u16> },
}

/// The pace of the main loop: when the last frame was, and how many frames
/// there have been since the last full second.
#[derive(Clone, Copy, Debug, PartialEq, Eq, Structural)]
pub struct FrameClock {
    before: u32,
    last_second: u32,
    fps: u16,
}

impl FrameClock {
    /// When the last frame was, in milliseconds.
    pub closed spec fn spec_before(self) -> u32 {
        self.before
    }

    /// When the count of frames was last reset, in milliseconds.
    pub closed spec fn spec_last_second(self) -> u32 {
        self.last_second
    }

    /// The number of frames since the count was last reset.
    pub closed spec fn spec_fps(self) -> u16 {
        self.fps
    }

    /// The count was reset no later than the last frame and no more than a
    /// second before it, and the frames counted since lie at least the time
    /// between two frames apart.
    pub open spec fn inv(self) -> bool {
        &&& self.spec_last_second() <= self.spec_before()
        &&& self.spec_before() - self.spec_last_second() <= 1_000
        &&& 1_000 * self.spec_fps() <= FRAME_RATE * (self.spec_before()
            - self.spec_last_second())
    }

    /// What `tick` answers at the time `now`.
    pub open spec fn spec_tick(self, now: u32) -> Tick {
        let dt = now - self.spec_before();
        if !frame_due(dt) {
            Tick::Wait((INTERVAL - dt) as u32)
        } else {
            Tick::Frame {
                elapsed: (dt * 1_000) as i64,
                fps: if now - self.spec_last_second() > 1_000 {
                    Some((self.spec_fps() + 1) as u16)
                } else {
                    None
                },
            }
        }
    }

    /// The clock after `tick` at the time `now`.
    pub open spec fn spec_ticked(self, now: u32, after: FrameClock) -> bool {
        let dt = now - self.spec_before();
        if !frame_due(dt) {
            after == self
        } else if now - self.spec_last_second() > 1_000 {
            &&& after.spec_before() == now
            &&& after.spec_last_second() == now
            &&& after.spec_fps() == 0
        } else {
            &&& after.spec_before() == now
            &&& after.spec_last_second() == self.spec_last_second()
            &&& after.spec_fps() == self.spec_fps() + 1
        }
    }

    /// A clock that counts from the time `now`.
    pub fn new(now: u32) -> (clock: FrameClock)
        ensures
            clock.inv(),
            clock.spec_before() == now,
            clock.spec_last_second() == now,
            clock.spec_fps() == 0,
    {
        FrameClock { before: now, last_second: now, fps: 0 }
    }

    /// When the last frame was, in milliseconds.
    pub fn before(&self) -> (before: u32)
        ensures
            before == self.spec_before(),
    {
        self.before
    }

    /// Decides at the time `now` whether a frame is due. While less than the
    /// time between two frames has passed since the last frame, nothing
    /// changes and the answer is how long to sleep: the whole milliseconds
    /// that are still missing. Else the frame is counted, and once more
    /// than a second has passed since the count was reset, the count is
    /// handed out and starts again.
    pub fn tick(&mut self, now: u32) -> (tick: Tick)
        requires
            old(self).inv(),
            now >= old(self).spec_before(),
        ensures
            final(self).inv(),
            tick == old(self).spec_tick(now),
            old(self).spec_ticked(now, *final(self)),
            tick matches Tick::Frame { elapsed, .. } ==> INTERVAL * 1_000 <= elapsed
                <= MAX_ELAPSED,
    {
        let dt: u32 = now - self.before;
        if (dt as u64) * (FRAME_RATE as u64) < 1_000 {
            return Tick::Wait(INTERVAL - dt);
        }
        self.before = now;
        self.fps += 1;
        let mut report: Option<u16> = None;
        if now - self.last_second > 1_000 {
            report = Some(self.fps);
            self.last_second = now;
            self.fps = 0;
        }
        Tick::Frame { elapsed: dt as i64 * 1_000, fps: report }
    }
}

/// Whether the main loop still runs.
#[derive(Clone, Copy, Debug, PartialEq, Eq, Structural)]
pub enum LoopState {
    Running,
    Terminated,
}

/// What the main loop does with the frame that a view has just drawn.
#[derive(Clone, Copy, Debug, PartialEq, Eq, Structural)]
pub enum Outcome {
    /// Show the frame.
    Present,
    /// Do not show the frame: another view has taken over.
    Skip,
    /// Do not show the frame: the loop has ended.
    Stop,
}

/// The main loop: the clock, the view that is driven, and whether the loop
/// still runs.
#[derive(Clone, Debug)]
pub struct MainLoop {
    clock: FrameClock,
    view: ActiveView,
    state: LoopState,
}

impl MainLoop {
    /// The pace of the loop.
    pub closed spec fn spec_clock(&self) -> FrameClock {
        self.clock
    }

    /// The view that is driven.
    pub closed spec fn spec_view(&self) -> ActiveView {
        self.view
    }

    /// Whether the loop still runs.
    pub closed spec fn spec_state(&self) -> LoopState {
        self.state
    }

    /// The clock and the view are as they must be between frames.
    pub open spec fn inv(&self) -> bool {
        self.spec_clock().inv() && self.spec_view().inv()
    }

    /// What the loop makes of the action of a view that has become `drawn`:
    /// it goes on with the same view and shows the frame, or goes on with
    /// the next view and does not show the frame, or ends; an error ends it too.
    pub open spec fn spec_interpreted(
        drawn: ActiveView,
        action: Result<ViewAction, ViewError>,
        view: ActiveView,
        state: LoopState,
        outcome: Result<Outcome, ViewError>,
    ) -> bool {
        match action {
            Ok(ViewAction::Continue) => {
                &&& outcome == Ok::<Outcome, ViewError>(Outcome::Present)
                &&& view == drawn
                &&& state == LoopState::Running
            },
            Ok(ViewAction::Quit) => {
                &&& outcome == Ok::<Outcome, ViewError>(Outcome::Stop)
                &&& view == drawn
                &&& state == LoopState::Terminated
            },
            Ok(ViewAction::ChangeView(next)) => {
                &&& outcome == Ok::<Outcome, ViewError>(Outcome::Skip)
                &&& view == next
                &&& state == LoopState::Running
            },
            Err(e) => {
                &&& outcome == Err::<Outcome, ViewError>(e)
                &&& view == drawn
                &&& state == LoopState::Terminated
            },
        }
    }

    /// A running loop that starts with `view` at the time `now`.
    pub fn new(view: ActiveView, now: u32) -> (main_loop: MainLoop)
        requires
            view.inv(),
        ensures
            main_loop.inv(),
            main_loop.spec_view() == view,
            main_loop.spec_state() == LoopState::Running,
            main_loop.spec_clock().spec_before() == now,
            main_loop.spec_clock().spec_last_second() == now,
            main_loop.spec_clock().spec_fps() == 0,
    {
        MainLoop { clock: FrameClock::new(now), view, state: LoopState::Running }
    }

    /// Whether the loop still runs.
    pub fn state(&self) -> (state: LoopState)
        ensures
            state == self.spec_state(),
    {
        self.state
    }

    /// The pace of the loop.
    pub fn clock(&self) -> (clock: FrameClock)
        ensures
            clock == self.spec_clock(),
    {
        self.clock
    }

    /// The view that is driven.
    pub fn view(&self) -> (view: &ActiveView)
        ensures
            *view == self.spec_view(),
    {
        &self.view
    }

    /// Decides at the time `now` whether a frame is due, as the clock does.
    pub fn tick(&mut self, now: u32) -> (tick: Tick)
        requires
            old(self).inv(),
            now >= old(self).spec_clock().spec_before(),
        ensures
            final(self).inv(),
            final(self).spec_view() == old(self).spec_view(),
            final(self).spec_state() == old(self).spec_state(),
            tick == old(self).spec_clock().spec_tick(now),
            old(self).spec_clock().spec_ticked(now, final(self).spec_clock()),
            tick matches Tick::Frame { elapsed, .. } ==> INTERVAL * 1_000 <= elapsed
                <= MAX_ELAPSED,
    {
        self.clock.tick(now)
    }

    /// Lets the view advance by one frame of `elapsed` and draw itself,
    /// then does what the view asks for.
    pub fn frame(&mut self, context: &mut Phi, elapsed: i64) -> (outcome: Result<
        Outcome,
        ViewError,
    >)
        requires
            old(self).inv(),
            old(self).spec_state() == LoopState::Running,
            0 <= elapsed,
        ensures
            final(self).inv(),
            final(self).spec_clock() == old(self).spec_clock(),
            exists|drawn: ActiveView, action: Result<ViewAction, ViewError>|
                {
                    &&& #[trigger] ActiveView::rendered(
                        old(self).spec_view(),
                        *old(context),
                        elapsed,
                        drawn,
                        *final(context),
                        action,
                    )
                    &&& MainLoop::spec_interpreted(
                        drawn,
                        action,
                        final(self).spec_view(),
                        final(self).spec_state(),
                        outcome,
                    )
                },
    {
        let action = self.view.render(context, elapsed);
        let ghost drawn = self.view;
        let ghost taken = action;
        let outcome = match action {
            Ok(ViewAction::Continue) => Ok(Outcome::Present),
            Ok(ViewAction::Quit) => {
                self.state = LoopState::Terminated;
                Ok(Outcome::Stop)
            },
            Ok(ViewAction::ChangeView(next)) => {
                self.view = next;
                Ok(Outcome::Skip)
            },
            Err(e) => {
                self.state = LoopState::Terminated;
                Err(e)
            },
        };
        assert(MainLoop::spec_interpreted(drawn, taken, self.view, self.state, outcome));
        outcome
    }
}

} // verus!
