//! What holds of radio buttons however the host drives them.
//!
//! The laws speak of [`RadioView`], the value that a [`Radio`] holds, and of
//! the answers that [`RadioView::event`] gives. That is what
//! [`Radio::event`] computes, so they hold of every control at run time.
//!
//! [`Radio`]: crate::material::radio::Radio
//! [`Radio::event`]: crate::material::radio::Radio::event

use vstd::prelude::*;
use crate::material::host::Event;
use crate::material::host::EventCtx;
use crate::material::host::Requests;
use crate::material::host::TimerToken;
use crate::material::radio::Phase;
use crate::material::radio::RadioView;
use crate::material::radio::indicator_diameter;
use crate::material::radio::Ripple;
use crate::material::radio::EXTRA_PADDING;
use crate::material::radio::INITIAL_RIPPLE_RADIUS;
use crate::material::radio::RIPPLE_MICROS;
use crate::material::radio::RIPPLE_MILLIS;

verus! {

/// One event as the host delivers it: what it knows of the control, what
/// happened, and the height of a basic widget under the theme of the moment.
pub struct Delivery {
    pub ctx: EventCtx,
    pub event: Event,
    pub base_height: i64,
}

/// A control and the shared value, between two events.
pub struct Bound<L, T> {
    pub radio: RadioView<L, T>,
    pub data: T,
}

impl<L, T> Bound<L, T> {
    /// The control and the shared value after one delivery.
    pub open spec fn deliver(self, delivery: Delivery) -> Bound<L, T> {
        let transition = self.radio.event(
            delivery.ctx,
            delivery.event,
            self.data,
            delivery.base_height,
        );
        Bound { radio: transition.radio, data: transition.data }
    }

    /// The control and the shared value after some deliveries, first to last.
    pub open spec fn run(self, deliveries: Seq<Delivery>) -> Bound<L, T>
        decreases deliveries.len(),
    {
        if deliveries.len() == 0 {
            self
        } else {
            self.run(deliveries.drop_last()).deliver(deliveries.last())
        }
    }
}

/// One thing that the host does to a group of controls: it delivers an
/// event to one of them, or tells one of them that its timer has started.
pub enum Step {
    Deliver { target: int, delivery: Delivery },
    TimerStarted { target: int, token: TimerToken },
}

/// Controls that share one value.
pub struct Group<L, T> {
    pub radios: Seq<RadioView<L, T>>,
    pub data: T,
}

impl<L, T> Group<L, T> {
    /// No two controls stand for the same candidate.
    pub open spec fn candidates_differ(self) -> bool {
        forall|i: int, j: int|
            0 <= i < j < self.radios.len() ==> self.radios[i].variant != self.radios[j].variant
    }

    /// The shared value is the candidate of one of the controls.
    pub open spec fn holds_a_candidate(self) -> bool {
        exists|i: int| 0 <= i < self.radios.len() && self.radios[i].variant == self.data
    }

    /// Control `i` is the selected one and no other is.
    pub open spec fn only_selected(self, i: int) -> bool {
        &&& 0 <= i < self.radios.len()
        &&& forall|j: int|
            0 <= j < self.radios.len() ==> (#[trigger] self.radios[j].is_selected(self.data) <==> j
                == i)
    }

    /// The group after one step. A step aimed at no control changes nothing.
    pub open spec fn step(self, step: Step) -> Group<L, T> {
        match step {
            Step::Deliver { target, delivery } => if 0 <= target < self.radios.len() {
                let after = Bound { radio: self.radios[target], data: self.data }.deliver(delivery);
                Group { radios: self.radios.update(target, after.radio), data: after.data }
            } else {
                self
            },
            Step::TimerStarted { target, token } => if 0 <= target < self.radios.len() {
                Group {
                    radios: self.radios.update(target, self.radios[target].timer_started(token)),
                    data: self.data,
                }
            } else {
                self
            },
        }
    }

    /// The group after some steps, first to last.
    pub open spec fn run(self, steps: Seq<Step>) -> Group<L, T>
        decreases steps.len(),
    {
        if steps.len() == 0 {
            self
        } else {
            self.run(steps.drop_last()).step(steps.last())
        }
    }
}

/// No event changes the label or the candidate of a control, and the shared
/// value afterwards is what it was or the candidate.
pub proof fn lemma_event_keeps_binding<L, T>(radio: RadioView<L, T>, data: T, delivery: Delivery)
    ensures
        ({
            let after = Bound { radio, data }.deliver(delivery);
            &&& after.radio.label == radio.label
            &&& after.radio.variant == radio.variant
            &&& after.data == data || after.data == radio.variant
        }),
{
}

/// Steps change no candidate, and leave in the shared value either what it
/// held or the candidate of one of the controls.
pub proof fn lemma_run_keeps_candidates<L, T>(group: Group<L, T>, steps: Seq<Step>)
    ensures
        ({
            let end = group.run(steps);
            &&& end.radios.len() == group.radios.len()
            &&& forall|i: int|
                0 <= i < group.radios.len() ==> (#[trigger] end.radios[i]).variant
                    == group.radios[i].variant
            &&& end.data == group.data || exists|i: int|
                0 <= i < group.radios.len() && group.radios[i].variant == end.data
        }),
    decreases steps.len(),
{
    if steps.len() > 0 {
        lemma_run_keeps_candidates(group, steps.drop_last());
        let before = group.run(steps.drop_last());
        match steps.last() {
            Step::Deliver { target, delivery } => {
                if 0 <= target < before.radios.len() {
                    lemma_event_keeps_binding(before.radios[target], before.data, delivery);
                    assert(group.radios[target].variant == before.radios[target].variant);
                }
            },
            Step::TimerStarted { target, token } => {},
        }
    }
}

/// Mutual exclusion: in a group whose candidates differ and whose shared
/// value starts as one of them, at every moment exactly one control is the
/// selected one, and it is the one whose candidate is the shared value.
pub proof fn lemma_exactly_one_selected<L, T>(group: Group<L, T>, steps: Seq<Step>)
    requires
        group.candidates_differ(),
        group.holds_a_candidate(),
    ensures
        ({
            let end = group.run(steps);
            exists|i: int| #[trigger] end.only_selected(i) && end.radios[i].variant == end.data
        }),
{
    lemma_run_keeps_candidates(group, steps);
    let end = group.run(steps);
    let i = choose|i: int| 0 <= i < group.radios.len() && group.radios[i].variant == end.data;
    assert forall|j: int| 0 <= j < end.radios.len() implies (#[trigger] end.radios[j].is_selected(
        end.data,
    ) <==> j == i) by {
        if j < i {
            assert(group.radios[j].variant != group.radios[i].variant);
        } else if i < j {
            assert(group.radios[i].variant != group.radios[j].variant);
        }
    }
    assert(end.only_selected(i));
}

/// Mutual exclusion for two controls: if they stand for different
/// candidates and the shared value starts as the first one's, then at every
/// moment one of them is the selected one and the other is not.
pub proof fn lemma_pair_exactly_one_selected<L, T>(a: RadioView<L, T>, b: RadioView<L, T>, steps: Seq<Step>)
    requires
        a.variant != b.variant,
    ensures
        ({
            let end = Group { radios: seq![a, b], data: a.variant }.run(steps);
            &&& end.radios.len() == 2
            &&& end.radios[0].is_selected(end.data) != end.radios[1].is_selected(end.data)
            &&& end.radios[0].is_selected(end.data) <==> end.data == a.variant
            &&& end.radios[1].is_selected(end.data) <==> end.data == b.variant
        }),
{
    let group = Group { radios: seq![a, b], data: a.variant };
    assert(group.radios[0].variant == group.data);
    lemma_run_keeps_candidates(group, steps);
    let end = group.run(steps);
    assert(end.radios[0].variant == a.variant);
    assert(end.radios[1].variant == b.variant);
}

/// A press and the release that follows it write the shared value once or
/// not at all.
///
/// The press writes nothing and claims the pointer. The release over the
/// control writes the control's candidate; the release elsewhere writes
/// nothing. Either way the release gives the pointer up, so that a further
/// release, until the next press, is not answered.
pub proof fn lemma_press_and_release<L, T>(
    radio: RadioView<L, T>,
    data: T,
    ctx: EventCtx,
    released_over: bool,
    later_over: bool,
    base_height: i64,
)
    ensures
        ({
            let press = radio.event(ctx, Event::MouseDown, data, base_height);
            let held = ctx.after(press.requests, released_over);
            let release = press.radio.event(held, Event::MouseUp, press.data, base_height);
            let let_go = held.after(release.requests, later_over);
            let further = release.radio.event(let_go, Event::MouseUp, release.data, base_height);
            &&& press.data == data
            &&& held.is_active
            &&& released_over ==> release.data == radio.variant
            &&& !released_over ==> release.data == data
            &&& !let_go.is_active
            &&& further.data == release.data
            &&& further.radio == release.radio
            &&& further.requests == Requests::nothing()
        }),
{
}

/// A release that selects asks for a ripple of [`RIPPLE_MILLIS`], and once
/// the host has started the timer the control is animating, from the
/// initial radius.
pub proof fn lemma_selecting_release_starts_ripple<L, T>(
    radio: RadioView<L, T>,
    data: T,
    base_height: i64,
    token: TimerToken,
    later: EventCtx,
)
    ensures
        ({
            let release = radio.event(
                EventCtx { is_active: true, is_hot: true },
                Event::MouseUp,
                data,
                base_height,
            );
            let started = release.radio.timer_started(token);
            &&& release.requests.timer == Some(RIPPLE_MILLIS)
            &&& release.requests.anim_frame
            &&& release.requests.paint
            &&& started.ripple == Some(Ripple { timer: token, radius: INITIAL_RIPPLE_RADIUS })
            &&& started.phase(later) == Phase::Animating
        }),
{
}

/// While no delivery is the firing of the ripple's own timer, the ripple
/// goes on, under the same timer.
pub proof fn lemma_ripple_goes_on<L, T>(bound: Bound<L, T>, token: TimerToken, deliveries: Seq<Delivery>)
    requires
        bound.radio.ripple is Some,
        bound.radio.ripple->0.timer == token,
        forall|i: int|
            0 <= i < deliveries.len() ==> (#[trigger] deliveries[i]).event != Event::Timer(token),
    ensures
        ({
            let end = bound.run(deliveries);
            &&& end.radio.ripple is Some
            &&& end.radio.ripple->0.timer == token
        }),
    decreases deliveries.len(),
{
    if deliveries.len() > 0 {
        let earlier = deliveries.drop_last();
        assert forall|i: int| 0 <= i < earlier.len() implies (#[trigger] earlier[i]).event
            != Event::Timer(token) by {
            assert(earlier[i] == deliveries[i]);
        }
        lemma_ripple_goes_on(bound, token, earlier);
        assert(deliveries.last() == deliveries[deliveries.len() - 1]);
    }
}

/// A ripple ends when its timer fires, and not before, however many
/// animation frames come in between.
///
/// From the moment the host has started the timer, through any deliveries
/// other than the firing of that timer, the control is animating. The
/// firing of the timer then clears the ripple, asks for one more painting,
/// and leaves the control idle.
pub proof fn lemma_ripple_ends_with_its_timer<L, T>(
    radio: RadioView<L, T>,
    data: T,
    token: TimerToken,
    deliveries: Seq<Delivery>,
    fired: EventCtx,
    base_height: i64,
)
    requires
        forall|i: int|
            0 <= i < deliveries.len() ==> (#[trigger] deliveries[i]).event != Event::Timer(token),
        !fired.is_active,
    ensures
        ({
            let playing = Bound { radio: radio.timer_started(token), data }.run(deliveries);
            let end = playing.radio.event(fired, Event::Timer(token), playing.data, base_height);
            &&& playing.radio.phase(fired) == Phase::Animating
            &&& end.radio.ripple is None
            &&& end.radio.phase(fired) == Phase::Idle
            &&& end.requests == Requests { paint: true, ..Requests::nothing() }
            &&& end.data == playing.data
        }),
{
    lemma_ripple_goes_on(Bound { radio: radio.timer_started(token), data }, token, deliveries);
}

/// The time that the animation frames among some deliveries cover, in
/// microseconds.
pub open spec fn frame_time(deliveries: Seq<Delivery>) -> int
    decreases deliveries.len(),
{
    if deliveries.len() == 0 {
        0
    } else {
        frame_time(deliveries.drop_last()) + (match deliveries.last().event {
            Event::AnimFrame(elapsed_micros) => elapsed_micros as int,
            _ => 0,
        })
    }
}

/// Under a theme that does not change, a ripple is no narrower than it
/// began and no wider than the share of its way that the frames so far have
/// paid for.
proof fn lemma_ripple_keeps_pace<L, T>(
    bound: Bound<L, T>,
    token: TimerToken,
    deliveries: Seq<Delivery>,
    base_height: i64,
)
    requires
        bound.radio.ripple == Some(Ripple { timer: token, radius: INITIAL_RIPPLE_RADIUS }),
        0 <= base_height <= i64::MAX - EXTRA_PADDING,
        forall|i: int|
            0 <= i < deliveries.len() ==> (#[trigger] deliveries[i]).base_height == base_height
                && deliveries[i].event != Event::Timer(token),
        frame_time(deliveries) <= RIPPLE_MICROS,
    ensures
        ({
            let end = bound.run(deliveries);
            &&& 0 <= frame_time(deliveries)
            &&& end.radio.ripple is Some
            &&& end.radio.ripple->0.timer == token
            &&& INITIAL_RIPPLE_RADIUS <= end.radio.ripple->0.radius
            &&& end.radio.ripple->0.radius <= INITIAL_RIPPLE_RADIUS + frame_time(deliveries)
                * base_height / 400_000
        }),
    decreases deliveries.len(),
{
    if deliveries.len() > 0 {
        let earlier = deliveries.drop_last();
        assert forall|i: int| 0 <= i < earlier.len() implies (#[trigger] earlier[i]).base_height
            == base_height && earlier[i].event != Event::Timer(token) by {
            assert(earlier[i] == deliveries[i]);
        }
        assert(deliveries.last() == deliveries[deliveries.len() - 1]);
        lemma_ripple_keeps_pace(bound, token, earlier, base_height);
        let before = frame_time(earlier);
        let paid = before * base_height;
        assert(0 <= paid <= 200_000 * base_height) by (nonlinear_arith)
            requires
                0 <= before <= 200_000,
                0 <= base_height,
                paid == before * base_height,
        ;
        if let Event::AnimFrame(elapsed_micros) = deliveries.last().event {
            let more = elapsed_micros * base_height;
            assert(0 <= more && paid + more == (before + elapsed_micros) * base_height
                && paid + more <= 200_000 * base_height) by (nonlinear_arith)
                requires
                    0 <= before,
                    0 <= elapsed_micros,
                    before + elapsed_micros <= 200_000,
                    0 <= base_height,
                    paid == before * base_height,
                    more == elapsed_micros * base_height,
            ;
            assert(paid / 400_000 + more / 400_000 <= (paid + more) / 400_000);
        }
    }
}

/// A ripple grows toward the edge of the indicator: while the theme does
/// not change and the animation frames cover no more than the ripple's
/// time, its radius is at least the initial radius and at most half the
/// indicator's diameter.
pub proof fn lemma_ripple_stays_inside<L, T>(
    radio: RadioView<L, T>,
    data: T,
    token: TimerToken,
    deliveries: Seq<Delivery>,
    base_height: i64,
)
    requires
        0 <= base_height <= i64::MAX - EXTRA_PADDING,
        forall|i: int|
            0 <= i < deliveries.len() ==> (#[trigger] deliveries[i]).base_height == base_height
                && deliveries[i].event != Event::Timer(token),
        frame_time(deliveries) <= RIPPLE_MICROS,
    ensures
        ({
            let end = Bound { radio: radio.timer_started(token), data }.run(deliveries);
            &&& end.radio.ripple is Some
            &&& INITIAL_RIPPLE_RADIUS <= end.radio.ripple->0.radius <= indicator_diameter(
                base_height,
            ) / 2
        }),
{
    lemma_ripple_keeps_pace(
        Bound { radio: radio.timer_started(token), data },
        token,
        deliveries,
        base_height,
    );
    let paid = frame_time(deliveries) * base_height;
    assert(paid <= 200_000 * base_height) by (nonlinear_arith)
        requires
            0 <= frame_time(deliveries) <= 200_000,
            0 <= base_height,
            paid == frame_time(deliveries) * base_height,
    ;
}

/// Selecting the selected control again is no special case: the release
/// writes the candidate and asks for the ripple all the same, since the
/// answer to an event does not look at the shared value.
pub proof fn lemma_reselecting_ripples<L, T>(
    radio: RadioView<L, T>,
    data: T,
    ctx: EventCtx,
    event: Event,
    base_height: i64,
)
    ensures
        ({
            let selected = radio.event(ctx, event, radio.variant, base_height);
            let other = radio.event(ctx, event, data, base_height);
            &&& selected.requests == other.requests
            &&& selected.radio == other.radio
            &&& event == Event::MouseUp && ctx.is_active && ctx.is_hot ==> {
                &&& selected.data == radio.variant
                &&& selected.requests.timer == Some(RIPPLE_MILLIS)
                &&& selected.requests.anim_frame
                &&& selected.requests.paint
            }
        }),
{
}

} // verus!
