use std::time::{Duration, Instant};

use bottom::event::{
    ComponentEventResult, KeyCode, KeyEvent, KeyModifiers, MouseEvent, MouseEventKind,
    KEY_MODIFIERS_NONE, KEY_MODIFIERS_SHIFT,
};
use bottom::time_graph::{
    AppConfigFields, AutohideTimer, AutohideTimerState, Marker, Rect, TimeGraph,
    AUTOHIDE_TIMEOUT_MILLISECONDS, STALE_MAX_MILLISECONDS, STALE_MIN_MILLISECONDS,
    TIME_LABEL_HEIGHT_LIMIT,
};

fn graph(start: u64) -> TimeGraph {
    TimeGraph::new(start, AutohideTimer::AlwaysShow, 30_000, 600_000, 15_000, false)
}

fn is_running(timer: &AutohideTimer) -> bool {
    matches!(
        timer,
        AutohideTimer::Enabled {
            state: AutohideTimerState::Running(_),
            ..
        }
    )
}

fn is_hidden(timer: &AutohideTimer) -> bool {
    matches!(
        timer,
        AutohideTimer::Enabled {
            state: AutohideTimerState::Hidden,
            ..
        }
    )
}

fn wait_for(duration: Duration) {
    let start = Instant::now();
    while start.elapsed() <= duration {
        std::hint::spin_loop();
    }
}

fn area(height: u16) -> Rect {
    Rect {
        x: 1,
        y: 1,
        width: 40,
        height,
    }
}

#[test]
fn zoom_in_steps_down_to_the_floor() {
    let mut g = graph(60_000);
    assert_eq!(g.zoom_in(), ComponentEventResult::Redraw);
    assert_eq!(g.get_current_display_time(), 45_000);
    assert_eq!(g.zoom_in(), ComponentEventResult::Redraw);
    assert_eq!(g.get_current_display_time(), 30_000);
    assert_eq!(g.zoom_in(), ComponentEventResult::NoRedraw);
    assert_eq!(g.get_current_display_time(), 30_000);
    assert_eq!(g.zoom_in(), ComponentEventResult::NoRedraw);
    assert_eq!(g.get_current_display_time(), 30_000);
}

#[test]
fn zoom_in_clamps_to_the_floor_and_redraws() {
    let mut g = graph(40_000);
    assert_eq!(g.zoom_in(), ComponentEventResult::Redraw);
    assert_eq!(g.get_current_display_time(), 30_000);
    assert_eq!(g.zoom_in(), ComponentEventResult::NoRedraw);
    assert_eq!(g.get_current_display_time(), 30_000);
}

#[test]
fn zoom_in_saturates_at_zero() {
    let mut g = TimeGraph::new(10, AutohideTimer::AlwaysShow, 0, 1_000, 100, false);
    assert_eq!(g.zoom_in(), ComponentEventResult::Redraw);
    assert_eq!(g.get_current_display_time(), 0);
    assert_eq!(g.zoom_in(), ComponentEventResult::NoRedraw);
    assert_eq!(g.get_current_display_time(), 0);
}

#[test]
fn zoom_out_steps_up_to_the_ceiling() {
    let mut g = graph(570_000);
    assert_eq!(g.zoom_out(), ComponentEventResult::Redraw);
    assert_eq!(g.get_current_display_time(), 585_000);
    assert_eq!(g.zoom_out(), ComponentEventResult::Redraw);
    assert_eq!(g.get_current_display_time(), 600_000);
    assert_eq!(g.zoom_out(), ComponentEventResult::NoRedraw);
    assert_eq!(g.get_current_display_time(), 600_000);
}

#[test]
fn zoom_out_clamps_to_the_ceiling_and_redraws() {
    let mut g = graph(590_000);
    assert_eq!(g.zoom_out(), ComponentEventResult::Redraw);
    assert_eq!(g.get_current_display_time(), 600_000);
    assert_eq!(g.zoom_out(), ComponentEventResult::NoRedraw);
}

#[test]
fn zoom_out_saturates_at_the_largest_range() {
    let mut g = TimeGraph::new(
        u64::MAX - 5,
        AutohideTimer::AlwaysShow,
        0,
        u64::MAX,
        10,
        false,
    );
    assert_eq!(g.zoom_out(), ComponentEventResult::Redraw);
    assert_eq!(g.get_current_display_time(), u64::MAX);
    assert_eq!(g.zoom_out(), ComponentEventResult::NoRedraw);
    assert_eq!(g.get_current_display_time(), u64::MAX);
}

#[test]
fn zoom_with_a_step_of_zero_never_moves() {
    let mut g = TimeGraph::new(60_000, AutohideTimer::AlwaysShow, 30_000, 600_000, 0, false);
    assert_eq!(g.zoom_in(), ComponentEventResult::NoRedraw);
    assert_eq!(g.zoom_out(), ComponentEventResult::NoRedraw);
    assert_eq!(g.get_current_display_time(), 60_000);
}

#[test]
fn repeated_zoom_in_reaches_the_floor_from_any_start() {
    for start in [30_000u64, 30_001, 44_999, 45_000, 123_456, 600_000] {
        let mut g = graph(start);
        let mut calls = 0;
        while g.zoom_in() == ComponentEventResult::Redraw {
            calls += 1;
            assert!(calls <= 40);
        }
        assert_eq!(g.get_current_display_time(), 30_000);
        assert_eq!(calls, (start - 30_000 + 14_999) / 15_000);
        assert_eq!(g.zoom_in(), ComponentEventResult::NoRedraw);
    }
}

#[test]
fn repeated_zoom_out_reaches_the_ceiling_from_any_start() {
    for start in [30_000u64, 599_999, 585_000, 123_456, 600_000] {
        let mut g = graph(start);
        let mut calls = 0;
        while g.zoom_out() == ComponentEventResult::Redraw {
            calls += 1;
            assert!(calls <= 40);
        }
        assert_eq!(g.get_current_display_time(), 600_000);
        assert_eq!(calls, (600_000 - start + 14_999) / 15_000);
        assert_eq!(g.zoom_out(), ComponentEventResult::NoRedraw);
    }
}

#[test]
fn reset_zoom_twice_redraws_once() {
    let mut g = graph(60_000);
    assert_eq!(g.zoom_out(), ComponentEventResult::Redraw);
    assert_eq!(g.get_current_display_time(), 75_000);
    assert_eq!(g.reset_zoom(), ComponentEventResult::Redraw);
    assert_eq!(g.get_current_display_time(), 60_000);
    assert_eq!(g.reset_zoom(), ComponentEventResult::NoRedraw);
    assert_eq!(g.get_current_display_time(), 60_000);
}

#[test]
fn reset_zoom_at_the_default_does_nothing() {
    let mut g = graph(60_000);
    assert_eq!(g.reset_zoom(), ComponentEventResult::NoRedraw);
    assert_eq!(g.get_current_display_time(), 60_000);
}

#[test]
fn chars_map_to_zoom_commands() {
    let mut g = graph(60_000);
    assert_eq!(g.handle_char('-'), ComponentEventResult::Redraw);
    assert_eq!(g.get_current_display_time(), 75_000);
    assert_eq!(g.handle_char('+'), ComponentEventResult::Redraw);
    assert_eq!(g.get_current_display_time(), 60_000);
    assert_eq!(g.handle_char('+'), ComponentEventResult::Redraw);
    assert_eq!(g.get_current_display_time(), 45_000);
    assert_eq!(g.handle_char('='), ComponentEventResult::Redraw);
    assert_eq!(g.get_current_display_time(), 60_000);
    assert_eq!(g.handle_char('='), ComponentEventResult::NoRedraw);
    assert_eq!(g.handle_char('a'), ComponentEventResult::Unhandled);
    assert_eq!(g.handle_char('_'), ComponentEventResult::Unhandled);
    assert_eq!(g.get_current_display_time(), 60_000);
}

#[test]
fn keys_with_no_modifier_or_shift_are_handled() {
    let mut g = graph(60_000);
    let minus = KeyEvent {
        code: KeyCode::Char('-'),
        modifiers: KeyModifiers {
            bits: KEY_MODIFIERS_NONE,
        },
    };
    assert_eq!(g.handle_key_event(minus), ComponentEventResult::Redraw);
    assert_eq!(g.get_current_display_time(), 75_000);
    let plus = KeyEvent {
        code: KeyCode::Char('+'),
        modifiers: KeyModifiers {
            bits: KEY_MODIFIERS_SHIFT,
        },
    };
    assert_eq!(g.handle_key_event(plus), ComponentEventResult::Redraw);
    assert_eq!(g.get_current_display_time(), 60_000);
    let equals = KeyEvent {
        code: KeyCode::Char('='),
        modifiers: KeyModifiers {
            bits: KEY_MODIFIERS_NONE,
        },
    };
    assert_eq!(g.handle_key_event(equals), ComponentEventResult::NoRedraw);
}

#[test]
fn keys_with_other_modifiers_or_codes_are_unhandled() {
    let mut g = graph(60_000);
    for bits in [2u8, 3, 4, 5, 8, 16, 32, 255] {
        let event = KeyEvent {
            code: KeyCode::Char('-'),
            modifiers: KeyModifiers { bits },
        };
        assert_eq!(g.handle_key_event(event), ComponentEventResult::Unhandled);
    }
    let other = KeyEvent {
        code: KeyCode::Other,
        modifiers: KeyModifiers {
            bits: KEY_MODIFIERS_NONE,
        },
    };
    assert_eq!(g.handle_key_event(other), ComponentEventResult::Unhandled);
    let letter = KeyEvent {
        code: KeyCode::Char('q'),
        modifiers: KeyModifiers {
            bits: KEY_MODIFIERS_SHIFT,
        },
    };
    assert_eq!(g.handle_key_event(letter), ComponentEventResult::Unhandled);
    assert_eq!(g.get_current_display_time(), 60_000);
}

#[test]
fn mouse_wheel_zooms() {
    let mut g = graph(60_000);
    let down = MouseEvent {
        kind: MouseEventKind::ScrollDown,
    };
    let up = MouseEvent {
        kind: MouseEventKind::ScrollUp,
    };
    let other = MouseEvent {
        kind: MouseEventKind::Other,
    };
    assert_eq!(g.handle_mouse_event(down), ComponentEventResult::Redraw);
    assert_eq!(g.get_current_display_time(), 75_000);
    assert_eq!(g.handle_mouse_event(up), ComponentEventResult::Redraw);
    assert_eq!(g.get_current_display_time(), 60_000);
    assert_eq!(g.handle_mouse_event(other), ComponentEventResult::Unhandled);
    assert_eq!(g.get_current_display_time(), 60_000);
}

#[test]
fn x_axis_labels_show_whole_seconds() {
    assert_eq!(graph(60_000).get_x_axis_labels(), vec!["60s", "0s"]);
    assert_eq!(graph(45_999).get_x_axis_labels(), vec!["45s", "0s"]);
    let g = TimeGraph::new(999, AutohideTimer::AlwaysShow, 0, 1_000, 1, false);
    assert_eq!(g.get_x_axis_labels(), vec!["0s", "0s"]);
    let g = TimeGraph::new(u64::MAX, AutohideTimer::AlwaysShow, 0, u64::MAX, 1, false);
    assert_eq!(
        g.get_x_axis_labels(),
        vec!["18446744073709551s", "0s"]
    );
}

#[test]
fn bounds_are_empty_until_set() {
    let mut g = graph(60_000);
    let empty = Rect {
        x: 0,
        y: 0,
        width: 0,
        height: 0,
    };
    assert_eq!(g.bounds(), empty);
    assert_eq!(g.border_bounds(), empty);
    assert_eq!(Rect::default(), empty);
    g.set_bounds(area(10));
    assert_eq!(g.bounds(), area(10));
    assert_eq!(g.border_bounds(), empty);
    g.set_border_bounds(area(12));
    assert_eq!(g.bounds(), area(10));
    assert_eq!(g.border_bounds(), area(12));
}

#[test]
fn chart_layout_of_a_high_graph_has_labels() {
    let mut g = graph(60_000);
    let layout = g.chart_layout(3, false, area(TIME_LABEL_HEIGHT_LIMIT), area(9));
    assert_eq!(layout.x_bounds, (-60_000, 0));
    assert_eq!(
        layout.x_labels,
        Some(vec!["60s".to_string(), "0s".to_string()])
    );
    assert_eq!(layout.marker, Marker::Braille);
    assert_eq!(layout.draw_order, vec![0, 1, 2]);
    assert_eq!(layout.hidden_legend_constraints, ((3, 4), (3, 4)));
    assert_eq!(g.bounds(), area(TIME_LABEL_HEIGHT_LIMIT));
    assert_eq!(g.border_bounds(), area(9));
}

#[test]
fn chart_layout_of_a_low_graph_has_no_labels() {
    let mut g = graph(60_000);
    let layout = g.chart_layout(2, false, area(TIME_LABEL_HEIGHT_LIMIT - 1), area(8));
    assert_eq!(layout.x_labels, None);
    assert_eq!(layout.x_bounds, (-60_000, 0));
}

#[test]
fn chart_layout_hides_labels_with_the_timer() {
    let mut g = TimeGraph::new(60_000, AutohideTimer::AlwaysHide, 30_000, 600_000, 15_000, true);
    let layout = g.chart_layout(1, false, area(20), area(22));
    assert_eq!(layout.x_labels, None);
    assert_eq!(layout.marker, Marker::Dot);

    let hidden = AutohideTimer::Enabled {
        state: AutohideTimerState::Hidden,
        show_duration: 5_000,
    };
    let mut g = TimeGraph::new(60_000, hidden, 30_000, 600_000, 15_000, true);
    assert_eq!(g.chart_layout(1, false, area(20), area(22)).x_labels, None);
    assert_eq!(g.zoom_in(), ComponentEventResult::Redraw);
    assert_eq!(
        g.chart_layout(1, false, area(20), area(22)).x_labels,
        Some(vec!["45s".to_string(), "0s".to_string()])
    );
}

#[test]
fn chart_layout_reverses_the_series() {
    let mut g = graph(60_000);
    assert_eq!(
        g.chart_layout(4, true, area(10), area(12)).draw_order,
        vec![3, 2, 1, 0]
    );
    assert_eq!(
        g.chart_layout(1, true, area(10), area(12)).draw_order,
        vec![0]
    );
    assert!(g
        .chart_layout(0, true, area(10), area(12))
        .draw_order
        .is_empty());
    assert!(g
        .chart_layout(0, false, area(10), area(12))
        .draw_order
        .is_empty());
}

#[test]
fn chart_layout_bounds_of_the_widest_range() {
    let mut g = TimeGraph::new(u64::MAX, AutohideTimer::AlwaysShow, 0, u64::MAX, 1, false);
    let layout = g.chart_layout(0, false, area(10), area(12));
    assert_eq!(layout.x_bounds, (-(u64::MAX as i128), 0));
}

#[test]
fn fixed_timers_never_change() {
    let mut show = AutohideTimer::AlwaysShow;
    show.start_display_timer();
    show.update_display_timer();
    assert!(matches!(show, AutohideTimer::AlwaysShow));
    assert!(show.is_showing());

    let mut hide = AutohideTimer::AlwaysHide;
    hide.start_display_timer();
    hide.update_display_timer();
    assert!(matches!(hide, AutohideTimer::AlwaysHide));
    assert!(!hide.is_showing());
}

#[test]
fn enabled_timer_shows_after_start_and_hides_after_its_duration() {
    let mut timer = AutohideTimer::Enabled {
        state: AutohideTimerState::Hidden,
        show_duration: 400,
    };
    assert!(!timer.is_showing());
    timer.start_display_timer();
    assert!(is_running(&timer));
    assert!(timer.is_showing());
    wait_for(Duration::from_millis(450));
    assert!(!timer.is_showing());
    assert!(is_hidden(&timer));
    assert!(!timer.is_showing());
}

#[test]
fn starting_again_rearms_the_timer() {
    let mut timer = AutohideTimer::Enabled {
        state: AutohideTimerState::Running(Instant::now()),
        show_duration: 400,
    };
    wait_for(Duration::from_millis(450));
    timer.start_display_timer();
    assert!(timer.is_showing());
    wait_for(Duration::from_millis(450));
    timer.update_display_timer();
    assert!(is_hidden(&timer));
    timer.update_display_timer();
    assert!(is_hidden(&timer));
}

#[test]
fn expire_after_hides_only_beyond_the_duration() {
    let running = || AutohideTimer::Enabled {
        state: AutohideTimerState::Running(Instant::now()),
        show_duration: 5,
    };
    let mut timer = running();
    timer.expire_after(0);
    assert!(is_running(&timer));
    timer.expire_after(5_000_000);
    assert!(is_running(&timer));
    timer.expire_after(5_000_001);
    assert!(is_hidden(&timer));
    timer.expire_after(0);
    assert!(is_hidden(&timer));

    let mut longest = AutohideTimer::Enabled {
        state: AutohideTimerState::Running(Instant::now()),
        show_duration: u64::MAX,
    };
    longest.expire_after(u64::MAX as u128 * 1_000_000);
    assert!(is_running(&longest));
    longest.expire_after(u64::MAX as u128 * 1_000_000 + 1);
    assert!(is_hidden(&longest));

    let mut show = AutohideTimer::AlwaysShow;
    show.expire_after(u128::MAX);
    assert!(matches!(show, AutohideTimer::AlwaysShow));
    let mut hide = AutohideTimer::AlwaysHide;
    hide.expire_after(u128::MAX);
    assert!(matches!(hide, AutohideTimer::AlwaysHide));
}

#[test]
fn zooming_starts_the_timer() {
    let hidden = AutohideTimer::Enabled {
        state: AutohideTimerState::Hidden,
        show_duration: 60_000,
    };
    let mut g = TimeGraph::new(60_000, hidden, 30_000, 600_000, 15_000, false);
    assert_eq!(g.chart_layout(1, false, area(10), area(12)).x_labels, None);
    assert_eq!(g.reset_zoom(), ComponentEventResult::NoRedraw);
    assert_eq!(g.chart_layout(1, false, area(10), area(12)).x_labels, None);
    assert_eq!(g.zoom_out(), ComponentEventResult::Redraw);
    assert!(g.chart_layout(1, false, area(10), area(12)).x_labels.is_some());
    assert_eq!(g.reset_zoom(), ComponentEventResult::Redraw);
    assert!(g.chart_layout(1, false, area(10), area(12)).x_labels.is_some());
}

#[test]
fn from_config_picks_the_timer() {
    let config = AppConfigFields {
        default_time_value: 90_000,
        hide_time: false,
        autohide_time: false,
        time_interval: 10_000,
        use_dot: true,
    };
    let mut g = TimeGraph::from_config(&config);
    assert_eq!(g.get_current_display_time(), 90_000);
    let layout = g.chart_layout(1, false, area(10), area(12));
    assert_eq!(layout.marker, Marker::Dot);
    assert!(layout.x_labels.is_some());
    assert_eq!(g.zoom_in(), ComponentEventResult::Redraw);
    assert_eq!(g.get_current_display_time(), 80_000);
    assert_eq!(g.reset_zoom(), ComponentEventResult::Redraw);
    assert_eq!(g.get_current_display_time(), 90_000);

    let hide = AppConfigFields {
        hide_time: true,
        autohide_time: true,
        ..config
    };
    let mut g = TimeGraph::from_config(&hide);
    assert_eq!(g.chart_layout(1, false, area(10), area(12)).x_labels, None);
    assert_eq!(g.zoom_in(), ComponentEventResult::Redraw);
    assert_eq!(g.chart_layout(1, false, area(10), area(12)).x_labels, None);

    let autohide = AppConfigFields {
        autohide_time: true,
        ..config
    };
    let mut g = TimeGraph::from_config(&autohide);
    assert!(g.chart_layout(1, false, area(10), area(12)).x_labels.is_some());
}

#[test]
fn from_config_uses_the_fixed_limits() {
    assert_eq!(AUTOHIDE_TIMEOUT_MILLISECONDS, 5_000);
    assert_eq!(STALE_MIN_MILLISECONDS, 30_000);
    assert_eq!(STALE_MAX_MILLISECONDS, 600_000);
    let config = AppConfigFields {
        default_time_value: 35_000,
        hide_time: false,
        autohide_time: false,
        time_interval: 10_000,
        use_dot: false,
    };
    let mut g = TimeGraph::from_config(&config);
    assert_eq!(g.zoom_in(), ComponentEventResult::Redraw);
    assert_eq!(g.get_current_display_time(), 30_000);
    let config = AppConfigFields {
        default_time_value: 595_000,
        ..config
    };
    let mut g = TimeGraph::from_config(&config);
    assert_eq!(g.zoom_out(), ComponentEventResult::Redraw);
    assert_eq!(g.get_current_display_time(), 600_000);
}

#[test]
fn a_cloned_timer_goes_its_own_way() {
    let timer = AutohideTimer::Enabled {
        state: AutohideTimerState::Running(Instant::now()),
        show_duration: 5,
    };
    let mut copy = timer.clone();
    assert!(is_running(&copy));
    copy.expire_after(6_000_000);
    assert!(is_hidden(&copy));
    assert!(is_running(&timer));
    assert!(is_hidden(&copy.clone()));
    assert!(matches!(AutohideTimer::AlwaysShow.clone(), AutohideTimer::AlwaysShow));
    assert!(matches!(AutohideTimer::AlwaysHide.clone(), AutohideTimer::AlwaysHide));
    assert!(matches!(
        AutohideTimerState::Hidden.clone(),
        AutohideTimerState::Hidden
    ));
}

fn instant_of(timer: &AutohideTimer) -> Option<Instant> {
    match timer {
        AutohideTimer::Enabled {
            state: AutohideTimerState::Running(start),
            ..
        } => Some(*start),
        _ => None,
    }
}

#[test]
fn start_at_sets_the_instant_handed_in() {
    let early = Instant::now();
    wait_for(Duration::from_millis(5));
    let late = Instant::now();
    assert!(late > early);

    let mut hidden = AutohideTimer::Enabled {
        state: AutohideTimerState::Hidden,
        show_duration: 7,
    };
    hidden.start_at(early);
    assert_eq!(instant_of(&hidden), Some(early));
    assert!(matches!(
        hidden,
        AutohideTimer::Enabled {
            show_duration: 7,
            ..
        }
    ));

    let mut running = AutohideTimer::Enabled {
        state: AutohideTimerState::Running(early),
        show_duration: 7,
    };
    running.start_at(late);
    assert_eq!(instant_of(&running), Some(late));
    running.start_at(early);
    assert_eq!(instant_of(&running), Some(early));

    let mut show = AutohideTimer::AlwaysShow;
    show.start_at(late);
    assert!(matches!(show, AutohideTimer::AlwaysShow));
    let mut hide = AutohideTimer::AlwaysHide;
    hide.start_at(late);
    assert!(matches!(hide, AutohideTimer::AlwaysHide));
}

#[test]
fn start_display_timer_reads_the_clock_anew() {
    let early = Instant::now();
    wait_for(Duration::from_millis(5));
    let mut timer = AutohideTimer::Enabled {
        state: AutohideTimerState::Running(early),
        show_duration: 1_000,
    };
    timer.start_display_timer();
    let restarted = instant_of(&timer).unwrap();
    assert!(restarted > early);
    assert!(restarted <= Instant::now());
    assert!(matches!(
        timer,
        AutohideTimer::Enabled {
            show_duration: 1_000,
            ..
        }
    ));
}

#[test]
fn a_zoom_starts_a_running_timer_anew() {
    let running = AutohideTimer::Enabled {
        state: AutohideTimerState::Running(Instant::now()),
        show_duration: 400,
    };
    let mut g = TimeGraph::new(60_000, running, 30_000, 600_000, 15_000, false);
    wait_for(Duration::from_millis(300));
    assert_eq!(g.zoom_in(), ComponentEventResult::Redraw);
    wait_for(Duration::from_millis(300));
    assert!(g.chart_layout(1, false, area(10), area(12)).x_labels.is_some());
    wait_for(Duration::from_millis(150));
    assert_eq!(g.chart_layout(1, false, area(10), area(12)).x_labels, None);
}

#[test]
fn commands_with_an_instant_start_the_timer_there() {
    let early = Instant::now();
    wait_for(Duration::from_millis(5));
    let late = Instant::now();
    let hidden = AutohideTimer::Enabled {
        state: AutohideTimerState::Hidden,
        show_duration: 60_000,
    };
    let mut g = TimeGraph::new(60_000, hidden, 30_000, 600_000, 15_000, false);
    assert_eq!(g.reset_zoom_at(late), ComponentEventResult::NoRedraw);
    assert_eq!(g.chart_layout(1, false, area(10), area(12)).x_labels, None);
    assert_eq!(g.zoom_in_at(late), ComponentEventResult::Redraw);
    assert_eq!(g.get_current_display_time(), 45_000);
    assert!(g.chart_layout(1, false, area(10), area(12)).x_labels.is_some());
    assert_eq!(g.zoom_out_at(early), ComponentEventResult::Redraw);
    assert_eq!(g.get_current_display_time(), 60_000);
    assert_eq!(g.zoom_out_at(early), ComponentEventResult::Redraw);
    assert_eq!(g.reset_zoom_at(early), ComponentEventResult::Redraw);
    assert_eq!(g.get_current_display_time(), 60_000);
    assert_eq!(g.reset_zoom_at(early), ComponentEventResult::NoRedraw);

    let short = AutohideTimer::Enabled {
        state: AutohideTimerState::Hidden,
        show_duration: 1,
    };
    let mut g = TimeGraph::new(60_000, short, 30_000, 600_000, 15_000, false);
    assert_eq!(g.zoom_in_at(early), ComponentEventResult::Redraw);
    assert_eq!(g.chart_layout(1, false, area(10), area(12)).x_labels, None);
}

#[test]
fn from_config_at_starts_the_timer_at_the_instant() {
    let early = Instant::now();
    wait_for(Duration::from_millis(5));
    let config = AppConfigFields {
        default_time_value: 90_000,
        hide_time: false,
        autohide_time: true,
        time_interval: 10_000,
        use_dot: false,
    };
    let mut g = TimeGraph::from_config_at(&config, Instant::now());
    assert_eq!(g.get_current_display_time(), 90_000);
    assert!(g.chart_layout(1, false, area(10), area(12)).x_labels.is_some());

    let hide = AppConfigFields {
        hide_time: true,
        ..config
    };
    let mut g = TimeGraph::from_config_at(&hide, early);
    assert_eq!(g.chart_layout(1, false, area(10), area(12)).x_labels, None);

    let always = AppConfigFields {
        autohide_time: false,
        ..config
    };
    let mut g = TimeGraph::from_config_at(&always, early);
    assert!(g.chart_layout(1, false, area(10), area(12)).x_labels.is_some());
}
