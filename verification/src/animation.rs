//! The run of an animation as a state machine.
//!
//! A run is driven from outside, one frame at a time. Before each frame the
//! driver says what it has measured: whether the time is up, and whether the
//! last point of the trail has come to an end of the render axis.
//! [`Animation::begin_frame`] decides from that whether the run goes on, and
//! with which reversal sign: the sign that tells the two halves of the curve
//! apart. The driver then computes where the last point goes, hands the new
//! point to [`Animation::render`], and draws the trail.

use vstd::prelude::*;
use crate::axis::{clamped_in_order, lemma_clamped_index_is_on_axis, on_axis, orders_totally};
use crate::config::{AnimationConfig, ConfigError};
use crate::point::Point;
use crate::sign::Sign;
use crate::trail::{render, slid};

verus! {

/// Whether a run is still going.
#[derive(Clone, Copy, Debug, PartialEq, Eq, Structural)]
pub enum Phase {
    Running,
    Stopped,
}

/// What the driver is to do with the frame that has just begun.
#[derive(Clone, Copy, Debug, PartialEq, Eq, Structural)]
pub enum Step {
    /// The run is over: draw nothing more.
    Halt,
    /// Advance the last point with the reversal sign `reversal`, and draw the
    /// frame.
    Draw { reversal: Sign },
}

/// A run as contracts see it.
pub struct AnimationView<C> {
    pub config: AnimationConfig,
    pub phase: Phase,
    pub reversal: Sign,
    pub points: Seq<Point<C>>,
}

impl<C> AnimationView<C> {
    /// What holds of every run: its configuration may run, and its trail has
    /// as many points as the configuration asks for, at least one.
    pub open spec fn wf(self) -> bool {
        &&& self.config.valid()
        &&& self.config.points >= 1
        &&& self.points.len() == self.config.points
    }

    /// The state in which a run sets out: going, its reversal sign `-1`, every
    /// point at rest at `origin`. (The points rest at an end of the render
    /// axis, so the first frame turns the sign to `+1`.)
    pub open spec fn initial(config: AnimationConfig, origin: C) -> Self {
        AnimationView {
            config,
            phase: Phase::Running,
            reversal: Sign::Minus,
            points: Seq::new(config.points as nat, |i: int| Point::spec_at_rest(origin)),
        }
    }

    /// Whether a frame that begins in this state ends the run: it does when
    /// the run is over already, and when the time is up and the run has a
    /// time limit.
    pub open spec fn halts(self, time_exceeded: bool) -> bool {
        self.phase is Stopped || (time_exceeded && self.config.spec_is_timed())
    }

    /// The state after a frame has begun. A run that halts is stopped and
    /// otherwise as it was. A run that goes on flips its reversal sign where
    /// its last point has come to an end of the render axis.
    pub open spec fn begun(self, time_exceeded: bool, at_extreme: bool) -> Self {
        if self.halts(time_exceeded) {
            AnimationView { phase: Phase::Stopped, ..self }
        } else if at_extreme {
            AnimationView { reversal: self.reversal.spec_flipped(), ..self }
        } else {
            self
        }
    }

    /// What the driver is told when a frame begins in this state.
    pub open spec fn step(self, time_exceeded: bool, at_extreme: bool) -> Step {
        if self.halts(time_exceeded) {
            Step::Halt
        } else {
            Step::Draw { reversal: self.begun(time_exceeded, at_extreme).reversal }
        }
    }

    /// The state after the trail has moved on to `next`.
    pub open spec fn rendered(self, next: Point<C>) -> Self {
        AnimationView { points: slid(self.points, next), ..self }
    }
}

/// What one frame brings from outside: the two measurements with which it
/// begins, and the point that the last point of the trail advances to.
pub struct Frame<C> {
    pub time_exceeded: bool,
    pub at_extreme: bool,
    pub next: Point<C>,
}

/// The state after one whole frame: the frame begins, and unless that ends
/// the run, the trail moves on to the frame's point.
pub open spec fn after_frame<C>(state: AnimationView<C>, frame: Frame<C>) -> AnimationView<C> {
    let begun = state.begun(frame.time_exceeded, frame.at_extreme);
    if begun.phase is Stopped {
        begun
    } else {
        begun.rendered(frame.next)
    }
}

/// The state after the given frames, first to last.
pub open spec fn after_frames<C>(state: AnimationView<C>, frames: Seq<Frame<C>>) -> AnimationView<C>
    decreases frames.len(),
{
    if frames.len() == 0 {
        state
    } else {
        after_frame(after_frames(state, frames.drop_last()), frames.last())
    }
}

/// A run that is over stays over and changes no more, whatever is measured.
pub proof fn lemma_stopped_is_final<C>(
    state: AnimationView<C>,
    time_exceeded: bool,
    at_extreme: bool,
)
    requires
        state.phase is Stopped,
    ensures
        state.begun(time_exceeded, at_extreme) == state,
        state.step(time_exceeded, at_extreme) is Halt,
{
}

/// A run that is going ends at a frame exactly when the time is up and the
/// run has a time limit. A run without a limit never ends.
pub proof fn lemma_halts_when_time_is_up<C>(
    state: AnimationView<C>,
    time_exceeded: bool,
    at_extreme: bool,
)
    requires
        state.phase is Running,
    ensures
        state.step(time_exceeded, at_extreme) is Halt <==> time_exceeded
            && state.config.total_time != crate::config::UNLIMITED,
        state.begun(time_exceeded, at_extreme).phase is Stopped <==> time_exceeded
            && state.config.total_time != crate::config::UNLIMITED,
        state.config.total_time == crate::config::UNLIMITED ==> state.begun(
            time_exceeded,
            at_extreme,
        ).phase is Running,
{
}

/// A frame that goes on flips the reversal sign exactly when the last point
/// is at an end of the render axis, and tells the driver the sign as it is
/// after that. Nothing else about the run changes as a frame begins.
pub proof fn lemma_reverses_at_extreme<C>(
    state: AnimationView<C>,
    time_exceeded: bool,
    at_extreme: bool,
)
    requires
        !state.halts(time_exceeded),
    ensures
        state.begun(time_exceeded, at_extreme).reversal == (if at_extreme {
            state.reversal.spec_flipped()
        } else {
            state.reversal
        }),
        state.step(time_exceeded, at_extreme) == (Step::Draw {
            reversal: state.begun(time_exceeded, at_extreme).reversal,
        }),
        state.begun(time_exceeded, at_extreme).points == state.points,
        state.begun(time_exceeded, at_extreme).config == state.config,
        state.begun(time_exceeded, at_extreme).phase is Running,
{
}

/// Through every frame of a run the configuration stays as it was set, the
/// trail keeps the length that the configuration asks for, and every point
/// of the trail travels in direction `+1` or `-1`.
pub proof fn lemma_run_keeps_its_shape<C>(state: AnimationView<C>, frames: Seq<Frame<C>>)
    requires
        state.wf(),
    ensures
        after_frames(state, frames).wf(),
        after_frames(state, frames).config == state.config,
        after_frames(state, frames).points.len() == state.points.len(),
        forall|i: int|
            0 <= i < after_frames(state, frames).points.len() ==> {
                let d = (#[trigger] after_frames(state, frames).points[i]).direction;
                d.spec_value() == 1 || d.spec_value() == -1
            },
        after_frames(state, frames).reversal.spec_value() == 1 || after_frames(
            state,
            frames,
        ).reversal.spec_value() == -1,
    decreases frames.len(),
{
    if frames.len() > 0 {
        lemma_run_keeps_its_shape(state, frames.drop_last());
    }
}

/// A run that has ended has ended for good: no later frame sets it going
/// again or moves its trail.
pub proof fn lemma_run_stays_stopped<C>(state: AnimationView<C>, frames: Seq<Frame<C>>)
    requires
        state.phase is Stopped,
    ensures
        after_frames(state, frames) == state,
    decreases frames.len(),
{
    if frames.len() > 0 {
        lemma_run_stays_stopped(state, frames.drop_last());
    }
}

/// A run with a time limit is over after the first frame at which the time is
/// up, and a run is still going after frames at none of which it was, or
/// which it met without a limit.
pub proof fn lemma_run_ends_with_its_time<C>(state: AnimationView<C>, frames: Seq<Frame<C>>)
    requires
        state.phase is Running,
    ensures
        (forall|i: int| 0 <= i < frames.len() ==> !(#[trigger] frames[i]).time_exceeded)
            || !state.config.spec_is_timed() ==> after_frames(state, frames).phase is Running,
        (exists|i: int| 0 <= i < frames.len() && (#[trigger] frames[i]).time_exceeded)
            && state.config.spec_is_timed() ==> after_frames(state, frames).phase is Stopped,
    decreases frames.len(),
{
    if frames.len() > 0 {
        let earlier = frames.drop_last();
        lemma_run_ends_with_its_time(state, earlier);
        let before = after_frames(state, earlier);
        assert(before.config == state.config) by {
            lemma_config_is_kept(state, earlier);
        }
        if (exists|i: int| 0 <= i < frames.len() && (#[trigger] frames[i]).time_exceeded)
            && state.config.spec_is_timed() {
            let i = choose|i: int| 0 <= i < frames.len() && (#[trigger] frames[i]).time_exceeded;
            if i < earlier.len() {
                assert(earlier[i].time_exceeded);
            } else {
                assert(frames.last().time_exceeded);
            }
        } else {
            assert forall|i: int| 0 <= i < earlier.len() && state.config.spec_is_timed()
                implies !(#[trigger] earlier[i]).time_exceeded by {
                assert(!frames[i].time_exceeded);
            }
        }
    }
}

/// Whether every point of the trail has its index on the axis, in the order
/// `le`.
pub open spec fn trail_on_axis<C>(
    le: spec_fn(C, C) -> bool,
    points: Seq<Point<C>>,
    lower: C,
    upper: C,
) -> bool {
    forall|i: int| 0 <= i < points.len() ==> on_axis(le, (#[trigger] points[i]).x_index, lower, upper)
}

/// Whether the point of every frame has an index that was held to the axis,
/// in the order `le`.
pub open spec fn frames_clamped<C>(
    le: spec_fn(C, C) -> bool,
    frames: Seq<Frame<C>>,
    lower: C,
    upper: C,
) -> bool {
    forall|i: int|
        0 <= i < frames.len() ==> exists|raw: C|
            (#[trigger] frames[i]).next.x_index == #[trigger] clamped_in_order(
                le,
                raw,
                lower,
                upper,
            )
}

/// In every frame of a run, every point of the trail has its index on the
/// axis, provided that the index of each new point was held to the axis.
/// This holds of a run that sets out with every point at the lower bound,
/// and of any other whose trail is on the axis at first.
pub proof fn lemma_trail_stays_on_axis<C>(
    le: spec_fn(C, C) -> bool,
    state: AnimationView<C>,
    frames: Seq<Frame<C>>,
    lower: C,
    upper: C,
)
    requires
        orders_totally(le),
        le(lower, upper),
        state.wf(),
        trail_on_axis(le, state.points, lower, upper),
        frames_clamped(le, frames, lower, upper),
    ensures
        trail_on_axis(le, after_frames(state, frames).points, lower, upper),
        trail_on_axis(le, AnimationView::initial(state.config, lower).points, lower, upper),
    decreases frames.len(),
{
    assert(le(lower, lower) || le(lower, lower));
    if frames.len() > 0 {
        let earlier = frames.drop_last();
        assert forall|i: int| 0 <= i < earlier.len() implies exists|raw: C|
            (#[trigger] earlier[i]).next.x_index == #[trigger] clamped_in_order(
                le,
                raw,
                lower,
                upper,
            ) by {
            assert(earlier[i] == frames[i]);
        }
        lemma_trail_stays_on_axis(le, state, earlier, lower, upper);
        lemma_run_keeps_its_shape(state, earlier);
        let before = after_frames(state, earlier);
        let frame = frames.last();
        assert(frame == frames[frames.len() - 1]);
        let raw = choose|raw: C| frame.next.x_index == #[trigger] clamped_in_order(le, raw, lower, upper);
        lemma_clamped_index_is_on_axis(le, raw, lower, upper);
        let after = after_frame(before, frame);
        assert forall|i: int| 0 <= i < after.points.len() implies on_axis(
            le,
            (#[trigger] after.points[i]).x_index,
            lower,
            upper,
        ) by {
            if after.points != before.points {
                if i < after.points.len() - 1 {
                    assert(after.points[i] == before.points[i + 1]);
                } else {
                    assert(after.points[i] == frame.next);
                }
            }
        }
    }
}

/// No frame changes the configuration of a run.
proof fn lemma_config_is_kept<C>(state: AnimationView<C>, frames: Seq<Frame<C>>)
    ensures
        after_frames(state, frames).config == state.config,
    decreases frames.len(),
{
    if frames.len() > 0 {
        lemma_config_is_kept(state, frames.drop_last());
    }
}

/// A run: its configuration, whether it is still going, its reversal sign,
/// and its trail of points, oldest first.
pub struct Animation<C> {
    config: AnimationConfig,
    phase: Phase,
    reversal: Sign,
    points: Vec<Point<C>>,
}

impl<C> View for Animation<C> {
    type V = AnimationView<C>;

    closed spec fn view(&self) -> AnimationView<C> {
        AnimationView {
            config: self.config,
            phase: self.phase,
            reversal: self.reversal,
            points: self.points@,
        }
    }
}

impl<C> Animation<C> {
    #[verifier::type_invariant]
    spec fn well_formed(self) -> bool {
        self@.wf()
    }
}

impl<C: Copy> Animation<C> {
    /// Sets a run up. `origin` is the caller's zero coordinate, at which every
    /// point is put. A configuration whose resolution exceeds its width is
    /// refused.
    pub fn new(config: AnimationConfig, origin: C) -> (made: Result<Self, ConfigError>)
        requires
            config.points >= 1,
        ensures
            made is Ok <==> config.valid(),
            made matches Ok(run) ==> run@ == AnimationView::initial(config, origin) && run@.wf(),
            made matches Err(e) ==> e == config.rejection(),
    {
        match config.validate() {
            Err(e) => Err(e),
            Ok(()) => {
                let mut points: Vec<Point<C>> = Vec::new();
                let mut made: u8 = 0;
                while made < config.points
                    invariant
                        made <= config.points,
                        points@ == Seq::new(made as nat, |i: int| Point::spec_at_rest(origin)),
                    decreases config.points - made,
                {
                    points.push(Point::at_rest(origin));
                    made = made + 1;
                    assert(points@ =~= Seq::new(
                        made as nat,
                        |i: int| Point::spec_at_rest(origin),
                    ));
                }
                Ok(Animation { config, phase: Phase::Running, reversal: Sign::Minus, points })
            },
        }
    }

    /// Begins a frame and says what to do with it. `time_exceeded` says that
    /// the time run so far is more than the configured duration; `at_extreme`
    /// that the render position of the last point is within tolerance of
    /// either end of the render axis. The driver measures both.
    pub fn begin_frame(&mut self, time_exceeded: bool, at_extreme: bool) -> (step: Step)
        ensures
            final(self)@ == old(self)@.begun(time_exceeded, at_extreme),
            step == old(self)@.step(time_exceeded, at_extreme),
            step is Halt <==> final(self)@.phase is Stopped,
            final(self)@.wf(),
    {
        proof {
            use_type_invariant(&*self);
        }
        if self.phase == Phase::Stopped || (time_exceeded && self.config.is_timed()) {
            self.phase = Phase::Stopped;
            Step::Halt
        } else {
            if at_extreme {
                self.reversal = self.reversal.flipped();
            }
            Step::Draw { reversal: self.reversal }
        }
    }

    /// Moves the trail on by one frame: the oldest point leaves, `next` comes
    /// last. The run must be going.
    pub fn render(&mut self, next: Point<C>)
        requires
            old(self)@.phase is Running,
        ensures
            final(self)@ == old(self)@.rendered(next),
            final(self)@.wf(),
    {
        proof {
            use_type_invariant(&*self);
        }
        self.points = render(&self.points, next);
    }

    /// The last point of the trail: the one that advances.
    pub fn last(&self) -> (p: Point<C>)
        ensures
            self@.wf(),
            p == self@.points.last(),
    {
        proof {
            use_type_invariant(self);
        }
        self.points[self.points.len() - 1]
    }

    /// The trail, oldest point first.
    pub fn points(&self) -> (trail: &Vec<Point<C>>)
        ensures
            self@.wf(),
            trail@ == self@.points,
    {
        proof {
            use_type_invariant(self);
        }
        &self.points
    }

    /// The configuration of the run.
    pub fn config(&self) -> (config: AnimationConfig)
        ensures
            self@.wf(),
            config == self@.config,
    {
        proof {
            use_type_invariant(self);
        }
        self.config
    }

    /// Whether the run is still going.
    pub fn phase(&self) -> (phase: Phase)
        ensures
            phase == self@.phase,
    {
        self.phase
    }

    /// The reversal sign of the run.
    pub fn reversal(&self) -> (reversal: Sign)
        ensures
            reversal == self@.reversal,
    {
        self.reversal
    }
}

} // verus!
