//! A graph with a time axis whose range the user widens and narrows, and the
//! timer that hides the axis labels after a while.

use std::time::Instant;
use vstd::prelude::*;
use crate::event::{ComponentEventResult, KeyCode, KeyEvent, MouseEvent, MouseEventKind};
use crate::text::{decimal_text, push_decimal};

verus! {

/// How long the time labels stay visible after the range changed, in
/// milliseconds.
pub const AUTOHIDE_TIMEOUT_MILLISECONDS: u64 = 5_000;

/// The narrowest range of the time axis, in milliseconds.
pub const STALE_MIN_MILLISECONDS: u64 = 30_000;

/// The widest range of the time axis, in milliseconds.
pub const STALE_MAX_MILLISECONDS: u64 = 600_000;

/// The least height of the graph at which the time labels are drawn.
pub const TIME_LABEL_HEIGHT_LIMIT: u16 = 7;

/// An area of the terminal, in cells.
#[derive(Clone, Copy, Debug, PartialEq, Eq, Structural)]
pub struct Rect {
    pub x: u16,
    pub y: u16,
    pub width: u16,
    pub height: u16,
}

impl Default for Rect {
    /// The empty area at the origin.
    fn default() -> (area: Rect)
        ensures
            area == (Rect { x: 0, y: 0, width: 0, height: 0 }),
    {
        Rect { x: 0, y: 0, width: 0, height: 0 }
    }
}

/// The state of an enabled timer: the labels are hidden, or they are shown
/// since the instant at which the timer was started.
pub enum AutohideTimerState {
    Hidden,
    Running(Instant),
}

impl Clone for AutohideTimerState {
    fn clone(&self) -> (copy: Self)
        ensures
            copy == *self,
    {
        match self {
            AutohideTimerState::Hidden => AutohideTimerState::Hidden,
            AutohideTimerState::Running(start) => AutohideTimerState::Running(*start),
        }
    }
}

/// Whether the time labels are shown: always, never, or for `show_duration`
/// milliseconds after the timer was last started.
pub enum AutohideTimer {
    AlwaysShow,
    AlwaysHide,
    Enabled { state: AutohideTimerState, show_duration: u64 },
}

impl Clone for AutohideTimer {
    fn clone(&self) -> (copy: Self)
        ensures
            copy == *self,
    {
        match self {
            AutohideTimer::AlwaysShow => AutohideTimer::AlwaysShow,
            AutohideTimer::AlwaysHide => AutohideTimer::AlwaysHide,
            AutohideTimer::Enabled { state, show_duration } => AutohideTimer::Enabled {
                state: state.clone(),
                show_duration: *show_duration,
            },
        }
    }
}

impl AutohideTimer {
    /// Whether the labels are visible in this state, the clock left aside.
    pub open spec fn shows(self) -> bool {
        match self {
            AutohideTimer::AlwaysShow => true,
            AutohideTimer::AlwaysHide => false,
            AutohideTimer::Enabled { state, show_duration } => state is Running,
        }
    }

    /// Whether the timer is enabled and running.
    pub open spec fn is_running(self) -> bool {
        match self {
            AutohideTimer::Enabled { state, show_duration } => state is Running,
            _ => false,
        }
    }

    /// The timer once it was started at the instant `now`: an enabled timer
    /// runs from `now`, whatever its state was, and keeps its duration; the two
    /// fixed timers stay as they are.
    pub open spec fn started_at(self, now: Instant) -> AutohideTimer {
        match self {
            AutohideTimer::Enabled { state, show_duration } => AutohideTimer::Enabled {
                state: AutohideTimerState::Running(now),
                show_duration,
            },
            _ => self,
        }
    }

    /// Whether `self` is `before` once it was started at some reading of the
    /// clock.
    pub open spec fn restarts(self, before: AutohideTimer) -> bool {
        exists|now: Instant| self == #[trigger] before.started_at(now)
    }

    /// The timer once `elapsed_nanos` nanoseconds have passed since it was
    /// started: a running timer is hidden when more than its duration has
    /// passed, and nothing else changes.
    pub open spec fn after_elapsed(self, elapsed_nanos: nat) -> AutohideTimer {
        match self {
            AutohideTimer::Enabled { state: AutohideTimerState::Running(start), show_duration } => {
                if elapsed_nanos > show_duration * 1_000_000 {
                    AutohideTimer::Enabled { state: AutohideTimerState::Hidden, show_duration }
                } else {
                    self
                }
            },
            _ => self,
        }
    }

    /// The timer with a running state turned to hidden.
    pub open spec fn expired(self) -> AutohideTimer {
        match self {
            AutohideTimer::Enabled { state, show_duration } => AutohideTimer::Enabled {
                state: AutohideTimerState::Hidden,
                show_duration,
            },
            _ => self,
        }
    }

    /// Starts the timer at the instant `now`: an enabled timer runs from `now`,
    /// whatever its state was. The two fixed timers do not change.
    pub fn start_at(&mut self, now: Instant)
        ensures
            *final(self) == old(self).started_at(now),
    {
        match self {
            AutohideTimer::AlwaysShow | AutohideTimer::AlwaysHide => {},
            AutohideTimer::Enabled { state, show_duration: _ } => {
                *state = AutohideTimerState::Running(now);
            },
        }
    }

    /// Starts the timer at the instant that the clock reads now: an enabled
    /// timer runs from that instant, whatever its state was. The two fixed
    /// timers do not change.
    pub fn start_display_timer(&mut self)
        ensures
            final(self).restarts(*old(self)),
            !(*old(self) is Enabled) ==> *final(self) == *old(self),
            *old(self) is Enabled ==> final(self).is_running() && (*final(self))->show_duration
                == (*old(self))->show_duration,
    {
        self.start_at(Instant::now());
    }

    /// Brings the timer up to date with a reading of the clock: `elapsed_nanos`
    /// is the time since the running timer was started.
    pub fn expire_after(&mut self, elapsed_nanos: u128)
        ensures
            *final(self) == old(self).after_elapsed(elapsed_nanos as nat),
    {
        match self {
            AutohideTimer::AlwaysShow | AutohideTimer::AlwaysHide => {},
            AutohideTimer::Enabled { state, show_duration } => match state {
                AutohideTimerState::Hidden => {},
                AutohideTimerState::Running(_) => {
                    let limit: u128 = (*show_duration as u128) * 1_000_000;
                    if elapsed_nanos > limit {
                        *state = AutohideTimerState::Hidden;
                    }
                },
            },
        }
    }

    /// The time since the timer was started, read from the clock now; zero for
    /// a timer that is not running.
    fn running_for(&self) -> (nanos: u128)
        ensures
            !self.is_running() ==> nanos == 0,
    {
        match self {
            AutohideTimer::Enabled { state, show_duration: _ } => match state {
                AutohideTimerState::Hidden => 0,
                AutohideTimerState::Running(start) => start.elapsed().as_nanos(),
            },
            _ => 0,
        }
    }

    /// Hides the labels of a running timer if more than its duration has
    /// passed on the clock since it was started. A timer that is not running
    /// does not change; a running one either stays as it is or is hidden.
    pub fn update_display_timer(&mut self)
        ensures
            !old(self).is_running() ==> *final(self) == *old(self),
            *final(self) == *old(self) || *final(self) == old(self).expired(),
    {
        let nanos: u128 = self.running_for();
        self.expire_after(nanos);
    }

    /// Brings the timer up to date with the clock, then says whether the labels
    /// are visible.
    pub fn is_showing(&mut self) -> (showing: bool)
        ensures
            !old(self).is_running() ==> *final(self) == *old(self),
            *final(self) == *old(self) || *final(self) == old(self).expired(),
            showing == final(self).shows(),
    {
        self.update_display_timer();
        match self {
            AutohideTimer::AlwaysShow => true,
            AutohideTimer::AlwaysHide => false,
            AutohideTimer::Enabled { state, show_duration: _ } => match state {
                AutohideTimerState::Hidden => false,
                AutohideTimerState::Running(_) => true,
            },
        }
    }
}

/// Once an enabled timer was started, whatever its state was before, its
/// labels are visible as long as no more than its duration has passed since,
/// and hidden once more has passed.
pub proof fn lemma_autohide_after_start(
    timer: AutohideTimer,
    started: AutohideTimer,
    elapsed_nanos: nat,
)
    requires
        timer is Enabled,
        started.restarts(timer),
    ensures
        started.shows(),
        started.after_elapsed(0).shows(),
        started.after_elapsed(elapsed_nanos).shows() <==> elapsed_nanos <= timer->show_duration
            * 1_000_000,
{
}

/// Bringing a timer up to date twice with one reading of the clock is the same
/// as doing so once, and a timer that is hidden stays hidden whatever the clock
/// reads later.
pub proof fn lemma_autohide_update_idempotent(timer: AutohideTimer, elapsed_nanos: nat, later: nat)
    ensures
        timer.after_elapsed(elapsed_nanos).after_elapsed(elapsed_nanos) == timer.after_elapsed(
            elapsed_nanos,
        ),
        !timer.after_elapsed(elapsed_nanos).shows() ==> !timer.after_elapsed(
            elapsed_nanos,
        ).after_elapsed(later).shows(),
{
}

/// The settings that a graph is made from.
#[derive(Clone, Copy, Debug, PartialEq, Eq, Structural)]
pub struct AppConfigFields {
    /// The range of the time axis at the start and after a reset, in
    /// milliseconds.
    pub default_time_value: u64,
    /// Never show the time labels.
    pub hide_time: bool,
    /// Show the time labels for a while after the range changed.
    pub autohide_time: bool,
    /// The step by which the range widens and narrows, in milliseconds.
    pub time_interval: u64,
    /// Draw the series with dots.
    pub use_dot: bool,
}

/// The shape that marks a point of a series.
#[derive(Clone, Copy, Debug, PartialEq, Eq, Structural)]
pub enum Marker {
    Dot,
    Braille,
}

/// What the chart of a time graph is drawn from, the series and the labels of
/// the value axis left aside.
pub struct TimeChartLayout {
    /// The bounds of the time axis, in milliseconds before now: the first is
    /// the negated range, the second is zero.
    pub x_bounds: (i128, i128),
    /// The two labels of the time axis, where they are to be drawn.
    pub x_labels: Option<Vec<String>>,
    /// The marker of every series.
    pub marker: Marker,
    /// The order in which the series are drawn and listed in the legend, as
    /// indices into the series handed in.
    pub draw_order: Vec<usize>,
    /// The legend is hidden when it is wider than the first ratio of the
    /// chart's width or higher than the second ratio of its height; each ratio
    /// is a numerator and a denominator.
    pub hidden_legend_constraints: ((u32, u32), (u32, u32)),
}

/// The timer that the settings ask for, where the graph is made at the instant
/// `now`: never shown where `hide_time` is set; else, where `autohide_time` is
/// set, enabled and running from `now` for the fixed duration; else always
/// shown.
pub open spec fn timer_of_config(config: AppConfigFields, now: Instant) -> AutohideTimer {
    if config.hide_time {
        AutohideTimer::AlwaysHide
    } else if config.autohide_time {
        AutohideTimer::Enabled {
            state: AutohideTimerState::Running(now),
            show_duration: AUTOHIDE_TIMEOUT_MILLISECONDS,
        }
    } else {
        AutohideTimer::AlwaysShow
    }
}

/// The range that zooming in gives: `step` less than `current`, not below
/// zero and not below `min`.
pub open spec fn zoomed_in(current: nat, step: nat, min: nat) -> nat {
    let candidate: nat = if current >= step {
        (current - step) as nat
    } else {
        0
    };
    if candidate == current {
        current
    } else if candidate >= min {
        candidate
    } else {
        min
    }
}

/// The range that zooming out gives: `step` more than `current`, not above
/// the largest number that a range can hold and not above `max`.
pub open spec fn zoomed_out(current: nat, step: nat, max: nat) -> nat {
    let candidate: nat = if current + step <= u64::MAX {
        current + step
    } else {
        u64::MAX as nat
    };
    if candidate == current {
        current
    } else if candidate <= max {
        candidate
    } else {
        max
    }
}

/// The draw order of `count` series: their indices, ascending, or descending
/// where `reverse_order` is set.
pub open spec fn draw_order_of(count: nat, reverse_order: bool) -> Seq<usize> {
    Seq::new(
        count,
        |i: int|
            if reverse_order {
                (count - 1 - i) as usize
            } else {
                i as usize
            },
    )
}

/// The labels of the time axis for a range in milliseconds: the range in whole
/// seconds, and zero seconds.
pub open spec fn x_axis_label_texts(current_display_time: nat) -> Seq<Seq<char>> {
    seq![decimal_text(current_display_time / 1000) + "s"@, "0s"@]
}

/// The indices `0..n` in descending order, given in ascending order.
fn reversed_indices(ascending: Vec<usize>) -> (descending: Vec<usize>)
    requires
        ascending@ == draw_order_of(ascending@.len(), false),
    ensures
        descending@ == draw_order_of(ascending@.len(), true),
{
    let n: usize = ascending.len();
    let mut descending: Vec<usize> = Vec::new();
    let mut i: usize = 0;
    while i < n
        invariant
            i <= n,
            n == ascending@.len(),
            ascending@ == draw_order_of(n as nat, false),
            descending@.len() == i,
            forall|j: int| 0 <= j < i ==> descending@[j] == (n - 1 - j) as usize,
        decreases n - i,
    {
        descending.push(ascending[n - 1 - i]);
        i += 1;
    }
    proof {
        assert(descending@ =~= draw_order_of(n as nat, true));
    }
    descending
}

/// A graph widget with controllable time ranges along the x-axis.
pub struct TimeGraph {
    current_display_time: u64,
    autohide_timer: AutohideTimer,
    default_time_value: u64,
    min_duration: u64,
    max_duration: u64,
    time_interval: u64,
    bounds: Rect,
    border_bounds: Rect,
    use_dot: bool,
}

impl TimeGraph {
    /// The range of the time axis, in milliseconds.
    pub closed spec fn current_ms(self) -> nat {
        self.current_display_time as nat
    }

    /// The range that a reset goes back to.
    pub closed spec fn default_ms(self) -> nat {
        self.default_time_value as nat
    }

    /// The narrowest range.
    pub closed spec fn min_ms(self) -> nat {
        self.min_duration as nat
    }

    /// The widest range.
    pub closed spec fn max_ms(self) -> nat {
        self.max_duration as nat
    }

    /// The step of one zoom.
    pub closed spec fn step_ms(self) -> nat {
        self.time_interval as nat
    }

    /// The timer of the time labels.
    pub closed spec fn timer(self) -> AutohideTimer {
        self.autohide_timer
    }

    /// Whether the series are drawn with dots.
    pub closed spec fn dotted(self) -> bool {
        self.use_dot
    }

    /// The area inside the border that the graph was last drawn in.
    pub closed spec fn inner_area(self) -> Rect {
        self.bounds
    }

    /// The area with the border that the graph was last drawn in.
    pub closed spec fn outer_area(self) -> Rect {
        self.border_bounds
    }

    /// Every range, limit and step is a number of milliseconds that fits 64
    /// bits.
    pub proof fn lemma_ranges_fit(self)
        ensures
            self.current_ms() <= u64::MAX,
            self.default_ms() <= u64::MAX,
            self.min_ms() <= u64::MAX,
            self.max_ms() <= u64::MAX,
            self.step_ms() <= u64::MAX,
    {
    }

    /// The range lies within its limits, and a zoom moves it.
    pub open spec fn wf(self) -> bool {
        &&& self.min_ms() <= self.current_ms() <= self.max_ms()
        &&& self.min_ms() <= self.default_ms() <= self.max_ms()
        &&& self.step_ms() > 0
    }

    /// Whether `self` and `before` have the same limits, step, default range
    /// and marker.
    pub open spec fn same_setup(self, before: TimeGraph) -> bool {
        &&& self.default_ms() == before.default_ms()
        &&& self.min_ms() == before.min_ms()
        &&& self.max_ms() == before.max_ms()
        &&& self.step_ms() == before.step_ms()
        &&& self.dotted() == before.dotted()
    }

    /// Whether `self` and `before` were last drawn in the same areas.
    pub open spec fn same_areas(self, before: TimeGraph) -> bool {
        &&& self.inner_area() == before.inner_area()
        &&& self.outer_area() == before.outer_area()
    }

    /// Whether `self` is `before` with the range set to `range`: where that is
    /// a new range the timer was started and the answer is `Redraw`, else
    /// nothing changed and the answer is `NoRedraw`.
    pub open spec fn moved_from(
        self,
        before: TimeGraph,
        range: nat,
        answer: ComponentEventResult,
    ) -> bool {
        &&& self.same_setup(before)
        &&& self.same_areas(before)
        &&& self.current_ms() == range
        &&& if range == before.current_ms() {
            answer == ComponentEventResult::NoRedraw && self.timer() == before.timer()
        } else {
            answer == ComponentEventResult::Redraw && self.timer().restarts(before.timer())
        }
    }

    /// Whether `self` is `before` with the range set to `range` at the instant
    /// `now`: where that is a new range the timer was started at `now` and the
    /// answer is `Redraw`, else nothing changed and the answer is `NoRedraw`.
    pub open spec fn moved_from_at(
        self,
        before: TimeGraph,
        range: nat,
        answer: ComponentEventResult,
        now: Instant,
    ) -> bool {
        &&& self.same_setup(before)
        &&& self.same_areas(before)
        &&& self.current_ms() == range
        &&& if range == before.current_ms() {
            answer == ComponentEventResult::NoRedraw && self.timer() == before.timer()
        } else {
            answer == ComponentEventResult::Redraw && self.timer() == before.timer().started_at(
                now,
            )
        }
    }

    /// Creates a new [`TimeGraph`]. All time values are in milliseconds.
    pub fn new(
        start_value: u64,
        autohide_timer: AutohideTimer,
        min_duration: u64,
        max_duration: u64,
        time_interval: u64,
        use_dot: bool,
    ) -> (graph: TimeGraph)
        ensures
            graph.current_ms() == start_value,
            graph.default_ms() == start_value,
            graph.min_ms() == min_duration,
            graph.max_ms() == max_duration,
            graph.step_ms() == time_interval,
            graph.timer() == autohide_timer,
            graph.dotted() == use_dot,
            graph.inner_area() == (Rect { x: 0, y: 0, width: 0, height: 0 }),
            graph.outer_area() == (Rect { x: 0, y: 0, width: 0, height: 0 }),
            graph.wf() <==> (min_duration <= start_value <= max_duration && time_interval > 0),
    {
        TimeGraph {
            current_display_time: start_value,
            autohide_timer,
            default_time_value: start_value,
            min_duration,
            max_duration,
            time_interval,
            bounds: Rect::default(),
            border_bounds: Rect::default(),
            use_dot,
        }
    }

    /// Creates a new [`TimeGraph`] from the settings, at the instant `now`: the
    /// labels are never shown where `hide_time` is set; else, where
    /// `autohide_time` is set, they are shown for a fixed while from `now` on
    /// and after every change of the range; else they are always shown.
    pub fn from_config_at(app_config_fields: &AppConfigFields, now: Instant) -> (graph: TimeGraph)
        ensures
            graph.current_ms() == app_config_fields.default_time_value,
            graph.default_ms() == app_config_fields.default_time_value,
            graph.min_ms() == STALE_MIN_MILLISECONDS,
            graph.max_ms() == STALE_MAX_MILLISECONDS,
            graph.step_ms() == app_config_fields.time_interval,
            graph.dotted() == app_config_fields.use_dot,
            graph.inner_area() == (Rect { x: 0, y: 0, width: 0, height: 0 }),
            graph.outer_area() == (Rect { x: 0, y: 0, width: 0, height: 0 }),
            graph.wf() <==> (STALE_MIN_MILLISECONDS <= app_config_fields.default_time_value
                <= STALE_MAX_MILLISECONDS && app_config_fields.time_interval > 0),
            graph.timer() == timer_of_config(*app_config_fields, now),
    {
        let timer = if app_config_fields.hide_time {
            AutohideTimer::AlwaysHide
        } else if app_config_fields.autohide_time {
            AutohideTimer::Enabled {
                state: AutohideTimerState::Running(now),
                show_duration: AUTOHIDE_TIMEOUT_MILLISECONDS,
            }
        } else {
            AutohideTimer::AlwaysShow
        };
        Self::new(
            app_config_fields.default_time_value,
            timer,
            STALE_MIN_MILLISECONDS,
            STALE_MAX_MILLISECONDS,
            app_config_fields.time_interval,
            app_config_fields.use_dot,
        )
    }

    /// Creates a new [`TimeGraph`] from the settings: the labels are never
    /// shown where `hide_time` is set; else, where `autohide_time` is set, they
    /// are shown for a fixed while from the instant that the clock reads now
    /// and after every change of the range; else they are always shown.
    pub fn from_config(app_config_fields: &AppConfigFields) -> (graph: TimeGraph)
        ensures
            graph.current_ms() == app_config_fields.default_time_value,
            graph.default_ms() == app_config_fields.default_time_value,
            graph.min_ms() == STALE_MIN_MILLISECONDS,
            graph.max_ms() == STALE_MAX_MILLISECONDS,
            graph.step_ms() == app_config_fields.time_interval,
            graph.dotted() == app_config_fields.use_dot,
            graph.inner_area() == (Rect { x: 0, y: 0, width: 0, height: 0 }),
            graph.outer_area() == (Rect { x: 0, y: 0, width: 0, height: 0 }),
            graph.wf() <==> (STALE_MIN_MILLISECONDS <= app_config_fields.default_time_value
                <= STALE_MAX_MILLISECONDS && app_config_fields.time_interval > 0),
            exists|now: Instant|
                graph.timer() == #[trigger] timer_of_config(*app_config_fields, now),
            app_config_fields.hide_time ==> graph.timer() == AutohideTimer::AlwaysHide,
            !app_config_fields.hide_time && app_config_fields.autohide_time ==> graph.timer()
                is Enabled && graph.timer()->state is Running && graph.timer()->show_duration
                == AUTOHIDE_TIMEOUT_MILLISECONDS,
            !app_config_fields.hide_time && !app_config_fields.autohide_time ==> graph.timer()
                == AutohideTimer::AlwaysShow,
    {
        Self::from_config_at(app_config_fields, Instant::now())
    }

    /// Handles a char `c`: `-` zooms out, `+` zooms in, `=` resets the range.
    pub fn handle_char(&mut self, c: char) -> (answer: ComponentEventResult)
        ensures
            c == '-' ==> final(self).moved_from(
                *old(self),
                zoomed_out(old(self).current_ms(), old(self).step_ms(), old(self).max_ms()),
                answer,
            ),
            c == '+' ==> final(self).moved_from(
                *old(self),
                zoomed_in(old(self).current_ms(), old(self).step_ms(), old(self).min_ms()),
                answer,
            ),
            c == '=' ==> final(self).moved_from(*old(self), old(self).default_ms(), answer),
            c != '-' && c != '+' && c != '=' ==> answer == ComponentEventResult::Unhandled
                && *final(self) == *old(self),
            old(self).wf() ==> final(self).wf(),
    {
        match c {
            '-' => self.zoom_out(),
            '+' => self.zoom_in(),
            '=' => self.reset_zoom(),
            _ => ComponentEventResult::Unhandled,
        }
    }

    /// Narrows the range by one step, not below the narrowest range, at the
    /// instant `now`. Where the range moves, the timer of the labels is started
    /// at `now`.
    pub fn zoom_in_at(&mut self, now: Instant) -> (answer: ComponentEventResult)
        ensures
            final(self).moved_from_at(
                *old(self),
                zoomed_in(old(self).current_ms(), old(self).step_ms(), old(self).min_ms()),
                answer,
                now,
            ),
            old(self).wf() ==> final(self).wf(),
    {
        let new_time: u64 = self.current_display_time.saturating_sub(self.time_interval);

        if self.current_display_time == new_time {
            ComponentEventResult::NoRedraw
        } else if new_time >= self.min_duration {
            self.current_display_time = new_time;
            self.autohide_timer.start_at(now);

            ComponentEventResult::Redraw
        } else if self.current_display_time != self.min_duration {
            self.current_display_time = self.min_duration;
            self.autohide_timer.start_at(now);

            ComponentEventResult::Redraw
        } else {
            ComponentEventResult::NoRedraw
        }
    }

    /// Narrows the range by one step, not below the narrowest range. Where the
    /// range moves, the timer of the labels is started at the instant that the
    /// clock reads now.
    pub fn zoom_in(&mut self) -> (answer: ComponentEventResult)
        ensures
            final(self).moved_from(
                *old(self),
                zoomed_in(old(self).current_ms(), old(self).step_ms(), old(self).min_ms()),
                answer,
            ),
            old(self).wf() ==> final(self).wf(),
    {
        self.zoom_in_at(Instant::now())
    }

    /// Widens the range by one step, not above the widest range, at the instant
    /// `now`. Where the range moves, the timer of the labels is started at
    /// `now`.
    pub fn zoom_out_at(&mut self, now: Instant) -> (answer: ComponentEventResult)
        ensures
            final(self).moved_from_at(
                *old(self),
                zoomed_out(old(self).current_ms(), old(self).step_ms(), old(self).max_ms()),
                answer,
                now,
            ),
            old(self).wf() ==> final(self).wf(),
    {
        let new_time: u64 = self.current_display_time.saturating_add(self.time_interval);

        if self.current_display_time == new_time {
            ComponentEventResult::NoRedraw
        } else if new_time <= self.max_duration {
            self.current_display_time = new_time;
            self.autohide_timer.start_at(now);

            ComponentEventResult::Redraw
        } else if self.current_display_time != self.max_duration {
            self.current_display_time = self.max_duration;
            self.autohide_timer.start_at(now);

            ComponentEventResult::Redraw
        } else {
            ComponentEventResult::NoRedraw
        }
    }

    /// Widens the range by one step, not above the widest range. Where the
    /// range moves, the timer of the labels is started at the instant that the
    /// clock reads now.
    pub fn zoom_out(&mut self) -> (answer: ComponentEventResult)
        ensures
            final(self).moved_from(
                *old(self),
                zoomed_out(old(self).current_ms(), old(self).step_ms(), old(self).max_ms()),
                answer,
            ),
            old(self).wf() ==> final(self).wf(),
    {
        self.zoom_out_at(Instant::now())
    }

    /// Sets the range back to the one that the graph was made with, at the
    /// instant `now`. Where the range moves, the timer of the labels is started
    /// at `now`.
    pub fn reset_zoom_at(&mut self, now: Instant) -> (answer: ComponentEventResult)
        ensures
            final(self).moved_from_at(*old(self), old(self).default_ms(), answer, now),
            old(self).wf() ==> final(self).wf(),
    {
        if self.current_display_time == self.default_time_value {
            ComponentEventResult::NoRedraw
        } else {
            self.current_display_time = self.default_time_value;
            self.autohide_timer.start_at(now);
            ComponentEventResult::Redraw
        }
    }

    /// Sets the range back to the one that the graph was made with. Where the
    /// range moves, the timer of the labels is started at the instant that the
    /// clock reads now.
    pub fn reset_zoom(&mut self) -> (answer: ComponentEventResult)
        ensures
            final(self).moved_from(*old(self), old(self).default_ms(), answer),
            old(self).wf() ==> final(self).wf(),
    {
        self.reset_zoom_at(Instant::now())
    }

    /// The texts of the two labels of the time axis.
    pub fn get_x_axis_labels(&self) -> (labels: Vec<String>)
        ensures
            labels@.len() == 2,
            labels@.map_values(|s: String| s@) == x_axis_label_texts(self.current_ms()),
    {
        let mut first: String = String::new();
        push_decimal(&mut first, (self.current_display_time / 1000) as u128);
        first.append("s");
        let mut second: String = String::new();
        second.append("0s");
        let mut labels: Vec<String> = Vec::new();
        labels.push(first);
        labels.push(second);
        proof {
            assert(labels@.map_values(|s: String| s@) =~= x_axis_label_texts(self.current_ms()));
        }
        labels
    }

    /// Returns the current display time boundary.
    pub fn get_current_display_time(&self) -> (range: u64)
        ensures
            range == self.current_ms(),
    {
        self.current_display_time
    }

    /// Puts together what the chart is drawn from, for a graph that is drawn
    /// in `block_area` with its border and in `inner_area` inside it: the two
    /// areas are recorded; the time axis runs from the negated range to zero;
    /// its labels are there where the inner area is high enough and the timer
    /// shows them; every series has the marker of the settings; the series are
    /// drawn in their order, or in reverse; and the legend is hidden beyond
    /// three quarters of the width or of the height. The timer is brought up
    /// to date with the clock only where the inner area is high enough.
    pub fn chart_layout(
        &mut self,
        series_count: usize,
        reverse_order: bool,
        inner_area: Rect,
        block_area: Rect,
    ) -> (layout: TimeChartLayout)
        ensures
            final(self).same_setup(*old(self)),
            final(self).current_ms() == old(self).current_ms(),
            final(self).inner_area() == inner_area,
            final(self).outer_area() == block_area,
            old(self).wf() ==> final(self).wf(),
            layout.x_bounds.0 == -(old(self).current_ms() as int),
            layout.x_bounds.1 == 0,
            layout.marker == (if old(self).dotted() {
                Marker::Dot
            } else {
                Marker::Braille
            }),
            layout.draw_order@ == draw_order_of(series_count as nat, reverse_order),
            layout.hidden_legend_constraints == ((3u32, 4u32), (3u32, 4u32)),
            inner_area.height < TIME_LABEL_HEIGHT_LIMIT ==> layout.x_labels is None
                && final(self).timer() == old(self).timer(),
            inner_area.height >= TIME_LABEL_HEIGHT_LIMIT ==> {
                &&& !old(self).timer().is_running() ==> final(self).timer() == old(self).timer()
                &&& final(self).timer() == old(self).timer()
                    || final(self).timer() == old(self).timer().expired()
                &&& layout.x_labels is Some <==> final(self).timer().shows()
            },
            layout.x_labels is Some ==> layout.x_labels->0@.map_values(|s: String| s@)
                == x_axis_label_texts(old(self).current_ms()),
    {
        self.set_border_bounds(block_area);
        self.set_bounds(inner_area);

        let time_start: i128 = -(self.current_display_time as i128);
        let x_labels = if inner_area.height >= TIME_LABEL_HEIGHT_LIMIT
            && self.autohide_timer.is_showing() {
            Some(self.get_x_axis_labels())
        } else {
            None
        };
        let marker = if self.use_dot {
            Marker::Dot
        } else {
            Marker::Braille
        };
        let mut draw_order: Vec<usize> = Vec::new();
        let mut i: usize = 0;
        while i < series_count
            invariant
                i <= series_count,
                draw_order@ == draw_order_of(i as nat, false),
            decreases series_count - i,
        {
            draw_order.push(i);
            i += 1;
            proof {
                assert(draw_order@ =~= draw_order_of(i as nat, false));
            }
        }
        if reverse_order {
            draw_order = reversed_indices(draw_order);
        }
        TimeChartLayout {
            x_bounds: (time_start, 0),
            x_labels,
            marker,
            draw_order,
            hidden_legend_constraints: ((3, 4), (3, 4)),
        }
    }

    /// Handles a key: a character typed with no modifier, or with shift alone,
    /// is handled as [`TimeGraph::handle_char`] says; any other key is not
    /// handled.
    pub fn handle_key_event(&mut self, event: KeyEvent) -> (answer: ComponentEventResult)
        ensures
            event.modifiers.is_plain() && event.code is Char && event.code->0 == '-'
                ==> final(self).moved_from(
                *old(self),
                zoomed_out(old(self).current_ms(), old(self).step_ms(), old(self).max_ms()),
                answer,
            ),
            event.modifiers.is_plain() && event.code is Char && event.code->0 == '+'
                ==> final(self).moved_from(
                *old(self),
                zoomed_in(old(self).current_ms(), old(self).step_ms(), old(self).min_ms()),
                answer,
            ),
            event.modifiers.is_plain() && event.code is Char && event.code->0 == '='
                ==> final(self).moved_from(*old(self), old(self).default_ms(), answer),
            !(event.modifiers.is_plain() && event.code is Char && (event.code->0 == '-'
                || event.code->0 == '+' || event.code->0 == '=')) ==> answer
                == ComponentEventResult::Unhandled && *final(self) == *old(self),
            old(self).wf() ==> final(self).wf(),
    {
        if event.modifiers.bits == crate::event::KEY_MODIFIERS_NONE || event.modifiers.bits
            == crate::event::KEY_MODIFIERS_SHIFT {
            match event.code {
                KeyCode::Char(c) => self.handle_char(c),
                _ => ComponentEventResult::Unhandled,
            }
        } else {
            ComponentEventResult::Unhandled
        }
    }

    /// Handles the mouse: the wheel turned down zooms out, turned up zooms in;
    /// any other event is not handled.
    pub fn handle_mouse_event(&mut self, event: MouseEvent) -> (answer: ComponentEventResult)
        ensures
            event.kind is ScrollDown ==> final(self).moved_from(
                *old(self),
                zoomed_out(old(self).current_ms(), old(self).step_ms(), old(self).max_ms()),
                answer,
            ),
            event.kind is ScrollUp ==> final(self).moved_from(
                *old(self),
                zoomed_in(old(self).current_ms(), old(self).step_ms(), old(self).min_ms()),
                answer,
            ),
            event.kind is Other ==> answer == ComponentEventResult::Unhandled && *final(self)
                == *old(self),
            old(self).wf() ==> final(self).wf(),
    {
        match event.kind {
            MouseEventKind::ScrollDown => self.zoom_out(),
            MouseEventKind::ScrollUp => self.zoom_in(),
            _ => ComponentEventResult::Unhandled,
        }
    }

    /// The area inside the border that the graph was last drawn in.
    pub fn bounds(&self) -> (area: Rect)
        ensures
            area == self.inner_area(),
    {
        self.bounds
    }

    /// Records the area inside the border that the graph is drawn in.
    pub fn set_bounds(&mut self, new_bounds: Rect)
        ensures
            final(self).inner_area() == new_bounds,
            final(self).outer_area() == old(self).outer_area(),
            final(self).same_setup(*old(self)),
            final(self).current_ms() == old(self).current_ms(),
            final(self).timer() == old(self).timer(),
    {
        self.bounds = new_bounds;
    }

    /// The area with the border that the graph was last drawn in.
    pub fn border_bounds(&self) -> (area: Rect)
        ensures
            area == self.outer_area(),
    {
        self.border_bounds
    }

    /// Records the area with the border that the graph is drawn in.
    pub fn set_border_bounds(&mut self, new_bounds: Rect)
        ensures
            final(self).outer_area() == new_bounds,
            final(self).inner_area() == old(self).inner_area(),
            final(self).same_setup(*old(self)),
            final(self).current_ms() == old(self).current_ms(),
            final(self).timer() == old(self).timer(),
    {
        self.border_bounds = new_bounds;
    }
}

/// The range after `n` zooms in a row, each narrowing it by `step`.
pub open spec fn zoomed_in_times(current: nat, step: nat, min: nat, n: nat) -> nat
    decreases n,
{
    if n == 0 {
        current
    } else {
        zoomed_in(zoomed_in_times(current, step, min, (n - 1) as nat), step, min)
    }
}

/// The range after `n` zooms out in a row, each widening it by `step`.
pub open spec fn zoomed_out_times(current: nat, step: nat, max: nat, n: nat) -> nat
    decreases n,
{
    if n == 0 {
        current
    } else {
        zoomed_out(zoomed_out_times(current, step, max, (n - 1) as nat), step, max)
    }
}

/// A reset that follows a reset changes nothing and asks for no redraw; the
/// first of the two asks for a redraw exactly where the range was not the
/// default one.
pub proof fn lemma_reset_zoom_twice(
    start: TimeGraph,
    once: TimeGraph,
    twice: TimeGraph,
    first: ComponentEventResult,
    second: ComponentEventResult,
)
    requires
        once.moved_from(start, start.default_ms(), first),
        twice.moved_from(once, once.default_ms(), second),
    ensures
        first == ComponentEventResult::Redraw <==> start.current_ms() != start.default_ms(),
        second == ComponentEventResult::NoRedraw,
        twice.current_ms() == once.current_ms(),
        twice.timer() == once.timer(),
{
}

/// After `n` zooms in from a range that is not below the narrowest one, the
/// range is `n` steps narrower, and the narrowest one where that would be
/// less.
pub proof fn lemma_zoomed_in_times(current: nat, step: nat, min: nat, n: nat)
    requires
        min <= current,
        step > 0,
    ensures
        zoomed_in_times(current, step, min, n) == (if current >= min + n * step {
            (current - n * step) as nat
        } else {
            min
        }),
    decreases n,
{
    if n > 0 {
        lemma_zoomed_in_times(current, step, min, (n - 1) as nat);
        assert(n * step == (n - 1) * step + step) by (nonlinear_arith);
        assert((n - 1) * step >= 0) by (nonlinear_arith)
            requires
                n >= 1,
                step > 0,
        ;
    } else {
        assert(0 * step == 0) by (nonlinear_arith);
    }
}

/// After `n` zooms out from a range that is not above the widest one, the
/// range is `n` steps wider, and the widest one where that would be more.
pub proof fn lemma_zoomed_out_times(current: nat, step: nat, max: nat, n: nat)
    requires
        current <= max <= u64::MAX,
        step > 0,
    ensures
        zoomed_out_times(current, step, max, n) == (if current + n * step <= max {
            current + n * step
        } else {
            max
        }),
    decreases n,
{
    if n > 0 {
        lemma_zoomed_out_times(current, step, max, (n - 1) as nat);
        assert(n * step == (n - 1) * step + step) by (nonlinear_arith);
        assert((n - 1) * step >= 0) by (nonlinear_arith)
            requires
                n >= 1,
                step > 0,
        ;
    } else {
        assert(0 * step == 0) by (nonlinear_arith);
    }
}

/// Zooming in again and again reaches the narrowest range: after any number of
/// zooms that covers the distance it is reached and kept, and a zoom in from
/// there asks for no redraw.
pub proof fn lemma_zoom_in_reaches_min(current: nat, step: nat, min: nat, n: nat)
    requires
        min <= current,
        step > 0,
        n * step >= current - min,
    ensures
        zoomed_in_times(current, step, min, n) == min,
        zoomed_in(min, step, min) == min,
        forall|before: TimeGraph, after: TimeGraph, answer: ComponentEventResult|
            before.current_ms() == min && before.min_ms() == min && before.step_ms() == step
                && #[trigger] after.moved_from(before, zoomed_in(min, step, min), answer)
                ==> answer == ComponentEventResult::NoRedraw && after.current_ms() == min,
{
    lemma_zoomed_in_times(current, step, min, n);
}

/// Zooming out again and again reaches the widest range: after any number of
/// zooms that covers the distance it is reached and kept, and a zoom out from
/// there asks for no redraw.
pub proof fn lemma_zoom_out_reaches_max(current: nat, step: nat, max: nat, n: nat)
    requires
        current <= max <= u64::MAX,
        step > 0,
        n * step >= max - current,
    ensures
        zoomed_out_times(current, step, max, n) == max,
        zoomed_out(max, step, max) == max,
        forall|before: TimeGraph, after: TimeGraph, answer: ComponentEventResult|
            before.current_ms() == max && before.max_ms() == max && before.step_ms() == step
                && #[trigger] after.moved_from(before, zoomed_out(max, step, max), answer)
                ==> answer == ComponentEventResult::NoRedraw && after.current_ms() == max,
{
    lemma_zoomed_out_times(current, step, max, n);
}

} // verus!
