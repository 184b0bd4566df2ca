//! A radio button: one of several controls that share a value and each
//! stand for one candidate of it.
//!
//! A control is drawn as a ring with a label to its right. The control whose
//! candidate equals the shared value has a dot in its ring. Pressing a
//! control and releasing the pointer over it writes its candidate into the
//! shared value and plays a ripple: a translucent disc that grows with every
//! animation frame until a timer ends it.
//!
//! The host drives the control. It delivers events to [`Radio::event`], does
//! what the returned [`Requests`] ask, and when it has started a timer for
//! the control it hands the token to [`Radio::timer_started`]. It lays out
//! the label, asks [`Radio::layout`] for the size that the control wants
//! and [`Radio::paint`] for what to draw.

use vstd::prelude::*;
use crate::env::color::Color;
use crate::env::key::Key;
use crate::env::theme::Env;
use crate::env::theme::EnvView;
use crate::material::geometry::floor_div;
use crate::material::geometry::half;
use crate::material::geometry::saturate;
use crate::material::geometry::saturating;
use crate::material::geometry::sum;
use crate::material::geometry::Circle;
use crate::material::geometry::Point;
use crate::material::geometry::Size;
use crate::material::host::Event;
use crate::material::host::EventCtx;
use crate::material::host::Layout;
use crate::material::host::LifeCycle;
use crate::material::host::PaintCtx;
use crate::material::host::PaintOp;
use crate::material::host::Requests;
use crate::material::host::TimerToken;
use crate::material::value::clones_by_value;
use crate::material::value::compares_by_value;

verus! {

/// The radius of the ring.
pub const DEFAULT_RADIO_RADIUS: i64 = 9_000;

/// The radius of the dot that marks the selected control.
pub const INNER_CIRCLE_RADIUS: i64 = 5_000;

/// By how much the indicator is wider than a basic widget is high.
pub const EXTRA_PADDING: i64 = 20_000;

/// The width of the line that draws the ring.
pub const STROKE_WIDTH: i64 = 2_000;

/// The radius at which a ripple starts.
pub const INITIAL_RIPPLE_RADIUS: i64 = 10_000;

/// How long a ripple lasts, in milliseconds.
pub const RIPPLE_MILLIS: u64 = 200;

/// How long a ripple lasts, in microseconds.
pub const RIPPLE_MICROS: u64 = 200_000;

/// The opacity of the ripple, in percent.
pub const RIPPLE_OPACITY: u8 = 30;

/// The opacity of the disc behind a focused control, in percent.
pub const FOCUS_OPACITY: u8 = 100;

/// The opacity of the disc behind a control under the pointer, in percent.
pub const HOVER_OPACITY: u8 = 5;

/// The height of a basic widget under a theme that gives one.
pub open spec fn height_in(env: EnvView) -> i64
    recommends
        env.basic_widget_height is Some,
{
    env.basic_widget_height->0
}

/// The diameter of the indicator: the height of a basic widget and the
/// extra padding.
pub open spec fn indicator_diameter(base_height: i64) -> int {
    saturate(base_height + EXTRA_PADDING)
}

/// By how much one animation frame widens a ripple.
///
/// A ripple starts at [`INITIAL_RIPPLE_RADIUS`] and is meant to reach the
/// edge of the indicator, half of `base_height + EXTRA_PADDING`, in
/// [`RIPPLE_MICROS`]. A frame of `elapsed_micros` widens it by that share
/// of the way: `elapsed_micros / RIPPLE_MICROS` times the way, rounded
/// once, toward negative infinity.
pub open spec fn ripple_growth(elapsed_micros: u64, base_height: i64) -> int {
    elapsed_micros * (base_height + EXTRA_PADDING - 2 * INITIAL_RIPPLE_RADIUS) / (2
        * RIPPLE_MICROS)
}

/// The radius of a ripple after an animation frame.
pub open spec fn grown_radius(radius: i64, elapsed_micros: u64, base_height: i64) -> int {
    saturate(radius + ripple_growth(elapsed_micros, base_height))
}

/// The key of the colour in which a control is drawn.
pub open spec fn accent_key(selected: bool) -> Key {
    if selected {
        Key::Primary
    } else {
        Key::BorderLight
    }
}

/// How far below the control's top edge the label begins, so that it is
/// centred on the indicator: half of what the indicator is higher than the
/// label, rounded toward negative infinity.
pub open spec fn label_top(base_height: i64, label_height: i64) -> int {
    (indicator_diameter(base_height) - label_height) / 2
}

/// The place of the label is a distance: it fits in an `i64` whatever the
/// theme and the label.
pub proof fn lemma_label_top_fits(base_height: i64, label_height: i64)
    ensures
        i64::MIN <= label_top(base_height, label_height) <= i64::MAX,
{
}

/// The size that a control wants and its baseline, given the layout of its
/// label.
///
/// The control wants the indicator and the label side by side and is as
/// high as the higher of the two. Its baseline is the label's, moved by
/// what the control is higher than the label.
pub open spec fn laid_out(label: Layout, base_height: i64) -> Layout {
    let diameter = indicator_diameter(base_height);
    let height = if diameter >= label.size.height {
        diameter
    } else {
        label.size.height as int
    };
    Layout {
        size: Size { width: saturate(diameter + label.size.width) as i64, height: height as i64 },
        baseline_offset: saturate(label.baseline_offset + (height - label.size.height)) as i64,
    }
}

/// A ripple that is playing.
#[derive(Clone, Copy, Debug, PartialEq, Eq, Structural)]
pub struct Ripple {
    /// The timer that ends the ripple.
    pub timer: TimerToken,
    /// The radius the ripple has reached.
    pub radius: i64,
}

/// Where a control stands between a press and the end of its ripple.
#[derive(Clone, Copy, Debug, PartialEq, Eq, Structural)]
pub enum Phase {
    /// Nothing is going on.
    Idle,
    /// The pointer went down on the control and has not come up.
    Pressed,
    /// A ripple is playing.
    Animating,
}

/// What a radio button is bound to and what it is doing.
struct Control<T: Clone + PartialEq> {
    variant: T,
    ripple: Option<Ripple>,
}

/// A single radio button, with a label of the host's making.
pub struct Radio<L, T: Clone + PartialEq> {
    child_label: L,
    control: Control<T>,
}

/// What a [`Radio`] holds.
pub struct RadioView<L, T> {
    /// The label.
    pub label: L,
    /// The candidate: the value that the control stands for.
    pub variant: T,
    /// The ripple, while one is playing.
    pub ripple: Option<Ripple>,
}

/// What an event leaves behind: the control, the shared value, and what the
/// control asks of the host.
pub struct Transition<L, T> {
    pub radio: RadioView<L, T>,
    pub data: T,
    pub requests: Requests,
}

impl<L, T> RadioView<L, T> {
    /// Whether the control is the selected one: the shared value equals its
    /// candidate.
    pub open spec fn is_selected(self, data: T) -> bool {
        data == self.variant
    }

    /// Where the control stands.
    pub open spec fn phase(self, ctx: EventCtx) -> Phase {
        if self.ripple is Some {
            Phase::Animating
        } else if ctx.is_active {
            Phase::Pressed
        } else {
            Phase::Idle
        }
    }

    /// The control with a ripple that starts now and that `token` will end.
    pub open spec fn timer_started(self, token: TimerToken) -> RadioView<L, T> {
        RadioView {
            ripple: Some(Ripple { timer: token, radius: INITIAL_RIPPLE_RADIUS }),
            ..self
        }
    }

    /// The answer of the control to an event.
    ///
    /// - A press claims the pointer.
    /// - A release, if the control holds the pointer, gives it up. If the
    ///   pointer is over the control, the release selects: the candidate
    ///   becomes the shared value, whatever that was, and the control asks
    ///   for the timer and the animation frames of a ripple.
    /// - An animation frame widens a playing ripple and asks for the next
    ///   frame. Without a ripple it does nothing.
    /// - The timer of the playing ripple ends it. Any other timer does
    ///   nothing.
    pub open spec fn event(
        self,
        ctx: EventCtx,
        event: Event,
        data: T,
        base_height: i64,
    ) -> Transition<L, T> {
        match event {
            Event::MouseDown => Transition {
                radio: self,
                data,
                requests: Requests { set_active: Some(true), paint: true, ..Requests::nothing() },
            },
            Event::MouseUp => if ctx.is_active && ctx.is_hot {
                Transition {
                    radio: self,
                    data: self.variant,
                    requests: Requests {
                        set_active: Some(false),
                        paint: true,
                        anim_frame: true,
                        timer: Some(RIPPLE_MILLIS),
                    },
                }
            } else if ctx.is_active {
                Transition {
                    radio: self,
                    data,
                    requests: Requests { set_active: Some(false), ..Requests::nothing() },
                }
            } else {
                Transition { radio: self, data, requests: Requests::nothing() }
            },
            Event::AnimFrame(elapsed_micros) => match self.ripple {
                Some(ripple) => Transition {
                    radio: RadioView {
                        ripple: Some(
                            Ripple {
                                timer: ripple.timer,
                                radius: grown_radius(ripple.radius, elapsed_micros, base_height) as i64,
                            },
                        ),
                        ..self
                    },
                    data,
                    requests: Requests { paint: true, anim_frame: true, ..Requests::nothing() },
                },
                None => Transition { radio: self, data, requests: Requests::nothing() },
            },
            Event::Timer(token) => if self.ripple is Some && self.ripple->0.timer == token {
                Transition {
                    radio: RadioView { ripple: None, ..self },
                    data,
                    requests: Requests { paint: true, ..Requests::nothing() },
                }
            } else {
                Transition { radio: self, data, requests: Requests::nothing() }
            },
            Event::Other => Transition { radio: self, data, requests: Requests::nothing() },
        }
    }

    /// The colour in which the control is drawn: the theme's primary colour
    /// if it is selected, the light border colour if not.
    pub open spec fn accent(self, data: T, env: EnvView) -> Color {
        env.colors[accent_key(self.is_selected(data))]
    }

    /// The disc behind the ring, if there is one: the ripple while it plays,
    /// else a full disc if the control has the focus, else a faint one if
    /// the pointer is over it.
    pub open spec fn halo(self, ctx: PaintCtx, data: T, env: EnvView) -> Seq<PaintOp> {
        let radius = (indicator_diameter(height_in(env)) / 2) as i64;
        let center = Point { x: radius, y: radius };
        let color = self.accent(data, env);
        match self.ripple {
            Some(ripple) => seq![
                PaintOp::Fill {
                    circle: Circle { center, radius: ripple.radius },
                    color,
                    opacity: Some(RIPPLE_OPACITY),
                },
            ],
            None => if ctx.is_focused {
                seq![
                    PaintOp::Fill {
                        circle: Circle { center, radius },
                        color,
                        opacity: Some(FOCUS_OPACITY),
                    },
                ]
            } else if ctx.is_hot {
                seq![
                    PaintOp::Fill {
                        circle: Circle { center, radius },
                        color,
                        opacity: Some(HOVER_OPACITY),
                    },
                ]
            } else {
                Seq::empty()
            },
        }
    }

    /// What is painted, in order: the halo, the ring, the dot if the control
    /// is selected, and the label to the right of the indicator, centred on
    /// it.
    pub open spec fn painted(self, ctx: PaintCtx, label: Layout, data: T, env: EnvView) -> Seq<
        PaintOp,
    > {
        let diameter = indicator_diameter(height_in(env)) as i64;
        let center = Point { x: (diameter / 2) as i64, y: (diameter / 2) as i64 };
        let color = self.accent(data, env);
        let ring = PaintOp::Stroke {
            circle: Circle { center, radius: DEFAULT_RADIO_RADIUS },
            color,
            width: STROKE_WIDTH,
        };
        let dot = PaintOp::Fill {
            circle: Circle { center, radius: INNER_CIRCLE_RADIUS },
            color,
            opacity: None,
        };
        let text = PaintOp::Label {
            origin: Point { x: diameter, y: label_top(height_in(env), label.size.height) as i64 },
        };
        self.halo(ctx, data, env) + seq![ring] + (if self.is_selected(data) {
            seq![dot]
        } else {
            Seq::empty()
        }) + seq![text]
    }
}

impl<L, T: Clone + PartialEq> View for Radio<L, T> {
    type V = RadioView<L, T>;

    closed spec fn view(&self) -> RadioView<L, T> {
        RadioView {
            label: self.child_label,
            variant: self.control.variant,
            ripple: self.control.ripple,
        }
    }
}

impl<T: Clone + PartialEq> Control<T> {
    #[verifier::type_invariant]
    spec fn copes_with_values(self) -> bool {
        compares_by_value::<T>() && clones_by_value::<T>()
    }
}

/// The diameter of the indicator under a theme, which must give the height
/// of a basic widget.
pub fn diameter_in(env: &Env) -> (diameter: i64)
    requires
        env@.basic_widget_height is Some,
    ensures
        diameter == indicator_diameter(height_in(env@)),
{
    sum(env.basic_widget_height(), EXTRA_PADDING)
}

/// The radius of a ripple after an animation frame.
pub fn grow(radius: i64, elapsed_micros: u64, base_height: i64) -> (grown: i64)
    ensures
        grown == grown_radius(radius, elapsed_micros, base_height),
{
    // Twice the way from the initial radius to the edge of the indicator.
    let way: i128 = base_height as i128 + EXTRA_PADDING as i128 - 2 * INITIAL_RIPPLE_RADIUS as i128;
    assert(-0x8000_0000_0000_0000 * 0xFFFF_FFFF_FFFF_FFFF <= elapsed_micros * way
        <= 0x8000_0000_0000_0000 * 0xFFFF_FFFF_FFFF_FFFF) by (nonlinear_arith)
        requires
            0 <= elapsed_micros <= 0xFFFF_FFFF_FFFF_FFFF,
            -0x8000_0000_0000_0000 <= way <= 0x8000_0000_0000_0000,
    ;
    let product: i128 = elapsed_micros as i128 * way;
    let growth: i128 = floor_div(product, 2 * RIPPLE_MICROS as i128);
    assert(growth == product / 400_000);
    saturating(radius as i128 + growth)
}

impl<L, T: Clone + PartialEq> Radio<L, T> {
    /// A control with a label, standing for `variant`, at rest.
    ///
    /// The type of the value must compare and clone by value, since the
    /// comparison decides which control of a group is the selected one, and
    /// a clone of the candidate becomes the shared value.
    pub fn new(label: L, variant: T) -> (radio: Radio<L, T>)
        requires
            compares_by_value::<T>(),
            clones_by_value::<T>(),
        ensures
            radio@ == (RadioView { label, variant, ripple: None }),
    {
        Radio { child_label: label, control: Control { variant, ripple: None } }
    }

    /// The label.
    pub fn label(&self) -> (label: &L)
        ensures
            *label == self@.label,
    {
        &self.child_label
    }

    /// The label, for the host to work on. Nothing else of the control
    /// changes with it.
    pub fn label_mut(&mut self) -> (label: &mut L)
        ensures
            *label == old(self)@.label,
            final(self)@ == (RadioView { label: *final(label), ..old(self)@ }),
    {
        &mut self.child_label
    }

    /// The candidate.
    pub fn variant(&self) -> (variant: &T)
        ensures
            *variant == self@.variant,
    {
        &self.control.variant
    }

    /// The timer of the ripple, while one is playing.
    pub fn expanding_time(&self) -> (timer: Option<TimerToken>)
        ensures
            timer == (match self@.ripple {
                Some(ripple) => Some(ripple.timer),
                None => None,
            }),
    {
        match self.control.ripple {
            Some(ripple) => Some(ripple.timer),
            None => None,
        }
    }

    /// The radius of the ripple, while one is playing.
    pub fn expanding_radius(&self) -> (radius: Option<i64>)
        ensures
            radius == (match self@.ripple {
                Some(ripple) => Some(ripple.radius),
                None => None,
            }),
    {
        match self.control.ripple {
            Some(ripple) => Some(ripple.radius),
            None => None,
        }
    }

    /// Whether the control is the selected one.
    pub fn is_selected(&self, data: &T) -> (selected: bool)
        ensures
            selected == self@.is_selected(*data),
    {
        proof {
            use_type_invariant(&self.control);
        }
        *data == self.control.variant
    }

    /// Where the control stands.
    pub fn phase(&self, ctx: &EventCtx) -> (phase: Phase)
        ensures
            phase == self@.phase(*ctx),
    {
        if self.control.ripple.is_some() {
            Phase::Animating
        } else if ctx.is_active {
            Phase::Pressed
        } else {
            Phase::Idle
        }
    }

    /// Answers an event: changes the control and the shared value as
    /// [`RadioView::event`] says and returns what to ask of the host.
    ///
    /// Only an animation frame during a ripple reads the theme, which must
    /// then give the height of a basic widget.
    pub fn event(&mut self, ctx: &EventCtx, event: &Event, data: &mut T, env: &Env) -> (requests:
        Requests)
        requires
            *event is AnimFrame && old(self)@.ripple is Some ==> env@.basic_widget_height is Some,
        ensures
            (Transition { radio: final(self)@, data: *final(data), requests }) == old(self)@.event(
                *ctx,
                *event,
                *old(data),
                height_in(env@),
            ),
    {
        proof {
            use_type_invariant(&self.control);
        }
        let mut requests = Requests { set_active: None, paint: false, anim_frame: false, timer: None };
        match *event {
            Event::MouseDown => {
                requests.set_active = Some(true);
                requests.paint = true;
            },
            Event::MouseUp => {
                if ctx.is_active {
                    requests.set_active = Some(false);
                    if ctx.is_hot {
                        let candidate = self.control.variant.clone();
                        assert(cloned(self.control.variant, candidate));
                        *data = candidate;
                        requests.paint = true;
                        requests.anim_frame = true;
                        requests.timer = Some(RIPPLE_MILLIS);
                    }
                }
            },
            Event::AnimFrame(elapsed_micros) => {
                if let Some(ripple) = self.control.ripple {
                    let radius = grow(ripple.radius, elapsed_micros, env.basic_widget_height());
                    self.control.ripple = Some(Ripple { timer: ripple.timer, radius });
                    requests.anim_frame = true;
                    requests.paint = true;
                }
            },
            Event::Timer(token) => {
                if let Some(ripple) = self.control.ripple {
                    if ripple.timer.into_raw() == token.into_raw() {
                        self.control.ripple = None;
                        requests.paint = true;
                    }
                }
            },
            Event::Other => {},
        }
        requests
    }

    /// Starts the ripple: records the token of the timer that the host
    /// started on the control's request, and the initial radius.
    pub fn timer_started(&mut self, token: TimerToken)
        ensures
            final(self)@ == old(self)@.timer_started(token),
    {
        proof {
            use_type_invariant(&self.control);
        }
        self.control.ripple = Some(Ripple { timer: token, radius: INITIAL_RIPPLE_RADIUS });
    }

    /// Whether the control must be painted again after a change in what the
    /// host knows of it: it must once the pointer comes or goes.
    pub fn lifecycle(&self, event: &LifeCycle) -> (repaint: bool)
        ensures
            repaint == (*event is HotChanged),
    {
        match *event {
            LifeCycle::HotChanged(_) => true,
            LifeCycle::Other => false,
        }
    }

    /// Whether the control must be painted again after the shared value
    /// changed from `old_data` to `data`: it must if the two differ.
    pub fn update(&self, old_data: &T, data: &T) -> (repaint: bool)
        ensures
            repaint == (*old_data != *data),
    {
        proof {
            use_type_invariant(&self.control);
        }
        !(*old_data == *data)
    }

    /// The size that the control wants and its baseline, given the layout
    /// of its label. The host fits the size to its constraints; the
    /// baseline does not depend on them. The theme must give the height of
    /// a basic widget.
    pub fn layout(&self, label: &Layout, env: &Env) -> (layout: Layout)
        requires
            env@.basic_widget_height is Some,
        ensures
            layout == laid_out(*label, height_in(env@)),
    {
        let radio_size = diameter_in(env);
        let height = if radio_size >= label.size.height {
            radio_size
        } else {
            label.size.height
        };
        let baseline = saturating(
            label.baseline_offset as i128 + (height as i128 - label.size.height as i128),
        );
        Layout {
            size: Size { width: sum(radio_size, label.size.width), height },
            baseline_offset: baseline,
        }
    }

    /// What to draw, in order, given the layout of the label. The theme
    /// must give the height of a basic widget and the colour in which the
    /// control is drawn.
    pub fn paint(&self, ctx: &PaintCtx, label: &Layout, data: &T, env: &Env) -> (ops: Vec<PaintOp>)
        requires
            env@.basic_widget_height is Some,
            env@.colors.contains_key(accent_key(self@.is_selected(*data))),
        ensures
            ops@ == self@.painted(*ctx, *label, *data, env@),
    {
        let size = diameter_in(env);
        let is_selected = self.is_selected(data);
        let radius = half(size);
        let center = Point { x: radius, y: radius };
        let border_color = if is_selected {
            env.get(Key::Primary)
        } else {
            env.get(Key::BorderLight)
        };
        let mut ops: Vec<PaintOp> = Vec::new();
        if let Some(ripple) = self.control.ripple {
            ops.push(
                PaintOp::Fill {
                    circle: Circle { center, radius: ripple.radius },
                    color: border_color,
                    opacity: Some(RIPPLE_OPACITY),
                },
            );
        } else if ctx.is_focused {
            ops.push(
                PaintOp::Fill {
                    circle: Circle { center, radius },
                    color: border_color,
                    opacity: Some(FOCUS_OPACITY),
                },
            );
        } else if ctx.is_hot {
            ops.push(
                PaintOp::Fill {
                    circle: Circle { center, radius },
                    color: border_color,
                    opacity: Some(HOVER_OPACITY),
                },
            );
        }
        assert(ops@ == self@.halo(*ctx, *data, env@));
        ops.push(
            PaintOp::Stroke {
                circle: Circle { center, radius: DEFAULT_RADIO_RADIUS },
                color: border_color,
                width: STROKE_WIDTH,
            },
        );
        if is_selected {
            ops.push(
                PaintOp::Fill {
                    circle: Circle { center, radius: INNER_CIRCLE_RADIUS },
                    color: border_color,
                    opacity: None,
                },
            );
        }
        let top: i128 = floor_div(size as i128 - label.size.height as i128, 2);
        proof {
            lemma_label_top_fits(height_in(env@), label.size.height);
        }
        ops.push(PaintOp::Label { origin: Point { x: size, y: top as i64 } });
        assert(ops@ =~= self@.painted(*ctx, *label, *data, env@));
        ops
    }
}

/// Where a column puts children that are narrower than itself.
#[derive(Clone, Copy, Debug, PartialEq, Eq, Structural)]
pub enum CrossAxisAlignment {
    Start,
    Center,
    End,
    Baseline,
}

/// One child of a column.
pub enum Child<L, T: Clone + PartialEq> {
    /// Empty space of the theme's standard height.
    Spacer,
    /// A radio button.
    Radio(Radio<L, T>),
}

/// What a [`Child`] is.
pub enum ChildView<L, T> {
    Spacer,
    Radio(RadioView<L, T>),
}

impl<L, T: Clone + PartialEq> View for Child<L, T> {
    type V = ChildView<L, T>;

    open spec fn view(&self) -> ChildView<L, T> {
        match self {
            Child::Spacer => ChildView::Spacer,
            Child::Radio(radio) => ChildView::Radio(radio@),
        }
    }
}

/// Children stacked from top to bottom.
pub struct Column<L, T: Clone + PartialEq> {
    pub cross_axis_alignment: CrossAxisAlignment,
    pub children: Vec<Child<L, T>>,
}

/// What a [`Column`] holds.
pub struct ColumnView<L, T> {
    pub cross_axis_alignment: CrossAxisAlignment,
    pub children: Seq<ChildView<L, T>>,
}

impl<L, T: Clone + PartialEq> View for Column<L, T> {
    type V = ColumnView<L, T>;

    open spec fn view(&self) -> ColumnView<L, T> {
        ColumnView {
            cross_axis_alignment: self.cross_axis_alignment,
            children: self.children@.map_values(|child: Child<L, T>| child@),
        }
    }
}

/// The control that a group makes of a label and a candidate.
pub open spec fn group_radio<L, T>(entry: (L, T)) -> RadioView<L, T> {
    RadioView { label: entry.0, variant: entry.1, ripple: None }
}

/// The children of a group: one control for each entry, in the order of the
/// entries, and a spacer between every two neighbours.
pub open spec fn group_children<L, T>(variants: Seq<(L, T)>) -> Seq<ChildView<L, T>> {
    Seq::new(
        if variants.len() == 0 {
            0nat
        } else {
            (2 * variants.len() - 1) as nat
        },
        |i: int|
            if i % 2 == 0 {
                ChildView::Radio(group_radio(variants[i / 2]))
            } else {
                ChildView::Spacer
            },
    )
}

/// A group of radio buttons.
#[derive(Clone, Copy, Debug)]
pub struct RadioGroup;

impl RadioGroup {
    /// Given `(label, candidate)` pairs, makes a column of radio buttons,
    /// one for each pair, aligned at the start and set apart by spacers.
    /// All of them are meant to share one value.
    pub fn new<L, T: Clone + PartialEq>(variants: Vec<(L, T)>) -> (column: Column<L, T>)
        requires
            compares_by_value::<T>(),
            clones_by_value::<T>(),
        ensures
            column@ == (ColumnView {
                cross_axis_alignment: CrossAxisAlignment::Start,
                children: group_children(variants@),
            }),
    {
        let mut children: Vec<Child<L, T>> = Vec::new();
        let mut is_first = true;
        let ghost entries = variants@;
        for entry in it: variants
            invariant
                compares_by_value::<T>(),
                clones_by_value::<T>(),
                it.seq() == entries,
                is_first == (it.index() == 0),
                children@.len() == group_children(entries.take(it.index() as int)).len(),
                forall|j: int|
                    0 <= j < children@.len() ==> (#[trigger] children@[j])@ == group_children(
                        entries.take(it.index() as int),
                    )[j],
        {
            let ghost done = it.index() as int;
            if !is_first {
                children.push(Child::Spacer);
            }
            let (label, variant) = entry;
            let radio = Radio::new(label, variant);
            children.push(Child::Radio(radio));
            is_first = false;
            assert forall|j: int| 0 <= j < children@.len() implies (#[trigger] children@[j])@
                == group_children(entries.take(done + 1))[j] by {
                if j % 2 == 0 {
                    assert(entries.take(done + 1)[j / 2] == entries[j / 2]);
                    if j / 2 < done {
                        assert(entries.take(done)[j / 2] == entries[j / 2]);
                    }
                }
            }
        }
        assert(entries.take(entries.len() as int) =~= entries);
        assert(children@.map_values(|child: Child<L, T>| child@) =~= group_children(entries));
        Column { cross_axis_alignment: CrossAxisAlignment::Start, children }
    }
}

} // verus!
