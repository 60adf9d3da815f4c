use panther_tracker::geom::{Delta, Pos};
use panther_tracker::screens::{
    MainScreen, RecordsScreen, Screen, ScreenKind, ScreenManagementCmd, StatsScreen,
};
use panther_tracker::transition::{
    elapsed_ms, CircleTransition, StartAnimation, WipePoint, START_ANIMATION_MS,
};

#[test]
fn main_press_hit_regions() {
    let mut main = MainScreen::new(0);
    // home tab: stays put
    assert!(matches!(main.press(Pos::new(100, 100), 1), ScreenManagementCmd::Noop));
    // records tab
    match main.press(Pos::new(500, 100), 2) {
        ScreenManagementCmd::PushScreen(Screen::Records(_)) => (),
        other => panic!("records push expected, got {:?}", other),
    }
    // stats tab
    match main.press(Pos::new(800, 100), 3) {
        ScreenManagementCmd::PushScreen(Screen::Stats(_)) => (),
        other => panic!("stats push expected, got {:?}", other),
    }
    // dead space between the bar and the start button
    assert!(matches!(main.press(Pos::new(500, 600), 4), ScreenManagementCmd::Noop));
    assert!(!main.inputs_blocked);
    // the start button blocks further inputs
    assert!(matches!(main.press(Pos::new(500, 1200), 5), ScreenManagementCmd::Noop));
    assert!(main.inputs_blocked);
    assert_eq!(main.start_animation.launched_at, Some(5));
    // the bar no longer reacts
    assert!(matches!(main.press(Pos::new(500, 100), 6), ScreenManagementCmd::Noop));
}

#[test]
fn start_button_bounds_are_exclusive() {
    let mut main = MainScreen::new(0);
    for pos in [
        Pos::new(300, 1200),
        Pos::new(700, 1200),
        Pos::new(500, 1100),
        Pos::new(500, 1400),
    ] {
        assert!(matches!(main.press(pos, 1), ScreenManagementCmd::Noop));
        assert!(!main.inputs_blocked);
    }
    assert!(matches!(main.press(Pos::new(301, 1101), 2), ScreenManagementCmd::Noop));
    assert!(main.inputs_blocked);
}

#[test]
fn records_press_hit_regions() {
    let records = RecordsScreen::new(0);
    match records.press(Pos::new(100, 100), 1) {
        ScreenManagementCmd::PushScreen(Screen::Main(_)) => (),
        other => panic!("main push expected, got {:?}", other),
    }
    assert!(matches!(records.press(Pos::new(500, 100), 2), ScreenManagementCmd::Noop));
    match records.press(Pos::new(800, 100), 3) {
        ScreenManagementCmd::PushScreen(Screen::Stats(_)) => (),
        other => panic!("stats push expected, got {:?}", other),
    }
    assert!(matches!(records.press(Pos::new(500, 600), 4), ScreenManagementCmd::Noop));
}

#[test]
fn stats_press_hit_regions() {
    let stats = StatsScreen::new(0);
    match stats.press(Pos::new(100, 100), 1) {
        ScreenManagementCmd::PushScreen(Screen::Main(_)) => (),
        other => panic!("main push expected, got {:?}", other),
    }
    match stats.press(Pos::new(500, 100), 2) {
        ScreenManagementCmd::PushScreen(Screen::Records(_)) => (),
        other => panic!("records push expected, got {:?}", other),
    }
    assert!(matches!(stats.press(Pos::new(800, 100), 3), ScreenManagementCmd::Noop));
}

#[test]
fn stats_scroll_shifts_and_clamps_colour() {
    let mut stats = StatsScreen::new(0);
    assert_eq!((stats.red, stats.green, stats.blue), (400, 500, 900));
    stats.scroll(Delta::new(200, -100));
    assert_eq!(stats.blue, 800);
    assert_eq!(stats.red, 450);
    // a huge drag pins the channels to their range
    stats.scroll(Delta::new(1_000_000, -1_000_000));
    assert_eq!(stats.blue, 0);
    assert_eq!(stats.red, 1000);
    stats.scroll(Delta::new(-1_000_000, 1_000_000));
    assert_eq!(stats.blue, 1000);
    assert_eq!(stats.red, 0);
    // green never moves
    assert_eq!(stats.green, 500);
}

#[test]
fn expansion_threshold_is_strict() {
    let screen = Screen::Records(RecordsScreen::new(0));
    assert!(!screen.is_expanded(1000));
    assert!(screen.is_expanded(1001));
    // a clock running behind the creation time reads as no elapsed time
    assert!(!screen.is_expanded(0));
    assert_eq!(screen.created_at(), 0);
    assert_eq!(screen.kind(), ScreenKind::Records);
}

#[test]
fn elapsed_time_saturates_at_zero() {
    assert_eq!(elapsed_ms(100, 50), 0);
    assert_eq!(elapsed_ms(100, 100), 0);
    assert_eq!(elapsed_ms(100, 175), 75);
}

#[test]
fn transition_progress_is_clamped() {
    let begin = WipePoint { x: 500, y: 500, radius: 500 };
    let middle = WipePoint { x: -500, y: -200, radius: 0 };
    let finish = WipePoint { x: 0, y: 2000, radius: 3000 };
    let wipe = CircleTransition::new(0, 1000, begin, middle, finish);
    assert_eq!(wipe.progress(0), 0);
    assert_eq!(wipe.progress(250), 250);
    assert_eq!(wipe.progress(999), 999);
    assert_eq!(wipe.progress(1000), 1000);
    assert_eq!(wipe.progress(90_000), 1000);
    assert!(!wipe.is_finished(999));
    assert!(wipe.is_finished(1000));
    let instant = CircleTransition::new(0, 0, begin, middle, finish);
    assert_eq!(instant.progress(0), 1000);
}

#[test]
fn transition_restart_only_moves_the_clock() {
    let begin = WipePoint { x: 500, y: 500, radius: 500 };
    let middle = WipePoint { x: -500, y: -200, radius: 0 };
    let finish = WipePoint { x: 0, y: 2000, radius: 3000 };
    let mut wipe = CircleTransition::new(0, 1000, begin, middle, finish);
    assert!(wipe.is_finished(2000));
    wipe.restart(2000);
    assert!(!wipe.is_finished(2500));
    assert_eq!(wipe.progress(2500), 500);
    assert_eq!(wipe.duration_ms, 1000);
}

#[test]
fn wipe_follows_the_control_points() {
    let screen = Screen::Records(RecordsScreen::new(0));
    // at the start the circle sits on the first control point
    let op = screen.draw(0);
    assert_eq!(op.kind, ScreenKind::Records);
    assert_eq!((op.wipe_x, op.wipe_y, op.wipe_radius), (500, 500, 500));
    // halfway, the quadratic curve gives (begin + 2 * middle + finish) / 4
    let op = screen.draw(500);
    assert_eq!((op.wipe_x, op.wipe_y, op.wipe_radius), (-125, 525, 875));
    // at the end it rests on the last control point
    let op = screen.draw(1000);
    assert_eq!((op.wipe_x, op.wipe_y, op.wipe_radius), (0, 2000, 3000));
    // and stays there
    let op = screen.draw(5000);
    assert_eq!((op.wipe_x, op.wipe_y, op.wipe_radius), (0, 2000, 3000));
}

#[test]
fn start_animation_runs_its_fixed_length() {
    let mut animation = StartAnimation::new();
    assert!(!animation.is_finished(10_000));
    animation.launch(100);
    assert!(!animation.is_finished(100 + START_ANIMATION_MS - 1));
    assert!(animation.is_finished(100 + START_ANIMATION_MS));
}

#[test]
fn main_update_pushes_only_after_the_launch() {
    let mut main = MainScreen::new(0);
    assert!(matches!(main.update(10_000), ScreenManagementCmd::Noop));
    main.start_pressed(50);
    assert!(matches!(main.update(50 + START_ANIMATION_MS - 1), ScreenManagementCmd::Noop));
    match main.update(50 + START_ANIMATION_MS) {
        ScreenManagementCmd::PushScreen(Screen::ActiveTraining(training)) => {
            assert_eq!(training.created, 50 + START_ANIMATION_MS);
        },
        other => panic!("training push expected, got {:?}", other),
    }
}
