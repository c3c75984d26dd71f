use termshell::clock::{TickClock, TICK_RATE_MS};
use termshell::control::{Action, Controller, Phase};
use termshell::event::{Event, KeyCode, KeyPress};
use termshell::view::{layout_view, panel_for, screen_regions, Area, BorderKind, Tint, PANEL_REGION};

fn key(c: char) -> KeyPress {
    KeyPress::new(KeyCode::Char(c), 0)
}

/// Runs the event source on a simulated clock: each wait lasts its whole
/// budget unless a key is scheduled to arrive before it ends.
fn simulate(duration: u64, keys: &[(u64, KeyPress)]) -> Vec<Event<KeyPress>> {
    let mut clock = TickClock::new(TICK_RATE_MS, 0);
    let mut now: u64 = 0;
    let mut pending = keys.iter().peekable();
    let mut out = Vec::new();
    loop {
        let deadline = now + clock.timeout(now);
        let key = match pending.peek() {
            Some((at, k)) if *at <= deadline => {
                now = now.max(*at);
                let k = *k;
                pending.next();
                Some(k)
            }
            _ => {
                now = deadline;
                None
            }
        };
        if now > duration {
            break;
        }
        if let Some(e) = clock.next(now, key) {
            out.push(e);
        }
    }
    out
}

#[test]
fn one_second_without_input_gives_five_ticks() {
    let events = simulate(1000, &[]);
    let ticks = events.iter().filter(|e| **e == Event::Tick).count();
    let inputs = events.iter().filter(|e| matches!(e, Event::Input(_))).count();
    assert_eq!(ticks, 5);
    assert_eq!(inputs, 0);
}

#[test]
fn quit_before_first_tick_renders_once() {
    let events = simulate(150, &[(50, key('q'))]);
    assert_eq!(events, vec![Event::Input(key('q'))]);
    let mut c = Controller::new();
    let mut renders = 0;
    if c.start() == Action::Render {
        renders += 1;
    }
    let mut shutdowns = 0;
    for e in &events {
        match c.handle(e) {
            Action::Render => renders += 1,
            Action::Shutdown => shutdowns += 1,
            Action::Idle => {}
        }
    }
    assert_eq!(renders, 1);
    assert_eq!(shutdowns, 1);
    assert_eq!(c.phase, Phase::Terminated);
}

#[test]
fn other_key_then_tick_keeps_running() {
    let events = simulate(200, &[(100, key('a'))]);
    assert_eq!(events, vec![Event::Input(key('a')), Event::Tick]);
    let mut c = Controller::new();
    assert_eq!(c.start(), Action::Render);
    assert_eq!(c.handle(&events[0]), Action::Render);
    assert_eq!(c.handle(&events[1]), Action::Render);
    assert_eq!(c.phase, Phase::Running);
    assert!(c.is_running());
}

#[test]
fn keys_are_passed_on_even_within_one_interval() {
    let events = simulate(
        250,
        &[(10, key('x')), (20, key('y')), (30, key('z')), (210, key('w'))],
    );
    assert_eq!(
        events,
        vec![
            Event::Input(key('x')),
            Event::Input(key('y')),
            Event::Input(key('z')),
            Event::Tick,
            Event::Input(key('w')),
        ]
    );
}

#[test]
fn tick_waits_for_a_full_interval() {
    let mut clock = TickClock::new(200, 1000);
    assert_eq!(clock.timeout(1000), 200);
    assert_eq!(clock.timeout(1150), 50);
    assert_eq!(clock.timeout(1300), 0);
    assert!(!clock.is_due(1199));
    assert_eq!(clock.next(1199, None), None);
    assert_eq!(clock.last_tick, 1000);
    assert!(clock.is_due(1200));
    assert_eq!(clock.next(1200, None), Some(Event::Tick));
    assert_eq!(clock.last_tick, 1200);
    assert_eq!(clock.timeout(1200), 200);
}

#[test]
fn key_leaves_the_tick_clock_alone() {
    let mut clock = TickClock::new(200, 0);
    assert_eq!(clock.next(300, Some(key('k'))), Some(Event::Input(key('k'))));
    assert_eq!(clock.last_tick, 0);
    assert_eq!(clock.next(300, None), Some(Event::Tick));
    assert_eq!(clock.last_tick, 300);
}

#[test]
fn quit_ends_the_loop_only_once() {
    let mut c = Controller::new();
    assert_eq!(c.handle(&Event::Tick), Action::Idle);
    assert_eq!(c.phase, Phase::Init);
    assert_eq!(c.start(), Action::Render);
    assert_eq!(c.start(), Action::Idle);
    assert_eq!(c.handle(&Event::Input(key('q'))), Action::Shutdown);
    assert_eq!(c.handle(&Event::Input(key('q'))), Action::Idle);
    assert_eq!(c.handle(&Event::Tick), Action::Idle);
    assert_eq!(c.phase, Phase::Terminated);
    assert!(!c.is_running());
}

#[test]
fn quit_key_ignores_modifiers_and_case() {
    assert!(KeyPress::new(KeyCode::Char('q'), 2).is_quit());
    assert!(!KeyPress::new(KeyCode::Char('Q'), 1).is_quit());
    assert!(!KeyPress::new(KeyCode::Esc, 0).is_quit());
    assert!(Event::Input(key('q')).is_quit());
    assert!(!Event::<KeyPress>::Tick.is_quit());
}

#[test]
fn screen_has_three_stacked_regions() {
    let regions = screen_regions(Area::new(0, 0, 80, 24));
    assert_eq!(regions.len(), 3);
    assert_eq!(regions[0], Area::new(2, 2, 76, 3));
    assert_eq!(regions[1], Area::new(2, 5, 76, 14));
    assert_eq!(regions[2], Area::new(2, 19, 76, 3));
}

#[test]
fn panel_fills_the_bottom_region() {
    let regions = vec![Area::new(1, 1, 5, 1), Area::new(1, 2, 5, 2), Area::new(1, 4, 5, 3)];
    let p = panel_for(&regions);
    assert_eq!(p.area, regions[PANEL_REGION]);
    assert_eq!(p.title, "Copyright");
    assert_eq!(p.text, "Test");
    assert_eq!(p.text_tint, Tint::LightCyan);
    assert_eq!(p.border_tint, Tint::White);
    assert!(p.centred);
    assert_eq!(p.border, BorderKind::Plain);
}

#[test]
fn panel_follows_the_screen_size_and_position() {
    let p = layout_view(Area::new(10, 5, 40, 12));
    assert_eq!(p.area, Area::new(12, 12, 36, 3));
    let q = layout_view(Area::new(65000, 0, 535, 30));
    assert_eq!(q.area, Area::new(65002, 25, 531, 3));
}

#[test]
fn small_screen_still_has_three_regions() {
    assert_eq!(screen_regions(Area::new(0, 0, 3, 5)).len(), 3);
    assert_eq!(screen_regions(Area::new(0, 0, 20, 9)).len(), 3);
    assert_eq!(screen_regions(Area::new(65535, 65535, 0, 0)).len(), 3);
}

#[test]
fn redraw_of_same_screen_is_identical() {
    let a = layout_view(Area::new(0, 0, 80, 24));
    let b = layout_view(Area::new(0, 0, 80, 24));
    assert_eq!(a.area, Area::new(2, 19, 76, 3));
    assert_eq!(a.area, b.area);
    assert_eq!(a.title, b.title);
    assert_eq!(a.text, b.text);
}

#[test]
fn ticks_stay_an_interval_apart_under_busy_input() {
    let keys: Vec<(u64, KeyPress)> = (1..=65).map(|i| (i * 10, key('a'))).collect();
    let events = simulate(650, &keys);
    let ticks = events.iter().filter(|e| **e == Event::Tick).count();
    let inputs = events.iter().filter(|e| matches!(e, Event::Input(_))).count();
    assert_eq!(inputs, 65);
    assert!(ticks * (TICK_RATE_MS as usize) <= 650);
    assert_eq!(ticks, 3);
}
