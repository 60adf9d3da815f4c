use panther_tracker::screens::{
    ActiveTrainingScreen, MainScreen, RecordsScreen, Screen, ScreenKind, StatsScreen,
};
use panther_tracker::stack::AppState;

fn kinds(ops: &[panther_tracker::screens::DrawOp]) -> Vec<ScreenKind> {
    ops.iter().map(|op| op.kind).collect()
}

#[test]
fn push_then_pop_restores_prior_stack() {
    let mut state = AppState::new();
    state.push_screen(Screen::Main(MainScreen::new(0)));
    let before = state.screens.clone();
    state.push_screen(Screen::Records(RecordsScreen::new(5)));
    state.pop_screen();
    assert_eq!(state.screens, before);
    assert!(!state.exit_request);
}

#[test]
fn pop_signals_exit_only_on_last_screen() {
    let mut state = AppState::new();
    state.push_screen(Screen::Main(MainScreen::new(0)));
    state.push_screen(Screen::Records(RecordsScreen::new(1)));
    state.push_screen(Screen::Stats(StatsScreen::new(2)));
    state.pop_screen();
    assert!(!state.exit_request);
    state.pop_screen();
    assert!(!state.exit_request);
    state.pop_screen();
    assert!(state.exit_request);
}

#[test]
fn pop_on_empty_stack_signals_exit() {
    let mut state = AppState::new();
    state.pop_screen();
    assert!(state.exit_request);
    assert_eq!(state.screens.len(), 0);
}

#[test]
fn ensure_renderer_bootstraps_one_main_screen() {
    let mut state = AppState::new();
    assert!(!state.renderer_ready());
    state.ensure_renderer(7);
    assert!(state.renderer_ready());
    assert_eq!(state.screens.len(), 1);
    assert!(matches!(state.screens[0], Screen::Main(_)));
    // a second call changes nothing
    state.ensure_renderer(9);
    assert_eq!(state.screens.len(), 1);
    assert_eq!(state.screens[0], Screen::Main(MainScreen::new(7)));
}

#[test]
fn input_goes_to_the_top_screen_only() {
    let mut state = AppState::new();
    assert_eq!(state.get_input_screen(), None);
    state.push_screen(Screen::Main(MainScreen::new(0)));
    state.push_screen(Screen::Records(RecordsScreen::new(1)));
    assert_eq!(state.get_input_screen(), Some(1));
}

#[test]
fn expanded_top_screen_prunes_the_rest() {
    // the two lower screens are fresh, the top one is long past expansion
    let mut state = AppState::new();
    state.push_screen(Screen::Main(MainScreen::new(1000)));
    state.push_screen(Screen::Records(RecordsScreen::new(1000)));
    state.push_screen(Screen::Stats(StatsScreen::new(0)));
    let ops = state.draw(1500);
    assert_eq!(state.screens.len(), 1);
    assert!(matches!(state.screens[0], Screen::Stats(_)));
    assert!(!state.exit_request);
    // all three were drawn, then the survivor once more after the restart
    assert_eq!(
        kinds(&ops),
        vec![ScreenKind::Main, ScreenKind::Records, ScreenKind::Stats, ScreenKind::Stats],
    );
}

#[test]
fn pruning_fires_at_several_depths_in_one_tick() {
    // expansion fires first at depth 1, then (after the restart) at depth 2
    let mut state = AppState::new();
    state.push_screen(Screen::Main(MainScreen::new(1000)));
    state.push_screen(Screen::Records(RecordsScreen::new(0)));
    state.push_screen(Screen::Stats(StatsScreen::new(1000)));
    state.push_screen(Screen::ActiveTraining(ActiveTrainingScreen::new(0)));
    let ops = state.draw(1500);
    assert_eq!(state.screens.len(), 1);
    assert!(matches!(state.screens[0], Screen::ActiveTraining(_)));
    assert_eq!(
        kinds(&ops),
        vec![
            ScreenKind::Main,
            ScreenKind::Records,
            ScreenKind::Records,
            ScreenKind::Stats,
            ScreenKind::ActiveTraining,
            ScreenKind::ActiveTraining,
        ],
    );
}

#[test]
fn unexpanded_stack_is_drawn_in_order_and_kept() {
    let mut state = AppState::new();
    state.push_screen(Screen::Main(MainScreen::new(0)));
    state.push_screen(Screen::Records(RecordsScreen::new(100)));
    let ops = state.draw(500);
    assert_eq!(state.screens.len(), 2);
    assert_eq!(kinds(&ops), vec![ScreenKind::Main, ScreenKind::Records]);
}

#[test]
fn expanded_bottom_screen_is_never_pruned() {
    let mut state = AppState::new();
    state.push_screen(Screen::Main(MainScreen::new(0)));
    state.push_screen(Screen::Records(RecordsScreen::new(1400)));
    let ops = state.draw(1500);
    // the bottom screen is expanded, but pruning needs an index above 0
    assert_eq!(state.screens.len(), 2);
    assert_eq!(kinds(&ops), vec![ScreenKind::Main, ScreenKind::Records]);
}

#[test]
fn finished_start_animation_pushes_a_training_session() {
    let mut state = AppState::new();
    state.push_screen(Screen::Main(MainScreen::new(0)));
    // press the start button
    state.dispatch_press(panther_tracker::geom::Pos::new(500, 1200), 0);
    match &state.screens[0] {
        Screen::Main(main) => {
            assert!(main.inputs_blocked);
            assert_eq!(main.bot_animation, Some(0));
        },
        other => panic!("main screen expected, got {:?}", other),
    }
    // while the launch animation plays, ticks push nothing
    let ops = state.draw(100);
    assert_eq!(state.screens.len(), 1);
    assert_eq!(ops.len(), 1);
    // once it has played out, the update tick pushes the session
    state.draw(1800);
    assert_eq!(state.screens.len(), 2);
    assert!(matches!(state.screens[1], Screen::ActiveTraining(_)));
}

#[test]
fn blocked_inputs_ignore_navigation_presses() {
    let mut state = AppState::new();
    state.push_screen(Screen::Main(MainScreen::new(0)));
    state.dispatch_press(panther_tracker::geom::Pos::new(500, 1200), 0);
    // with inputs blocked, a tap on the records tab does nothing
    state.dispatch_press(panther_tracker::geom::Pos::new(500, 100), 10);
    assert_eq!(state.screens.len(), 1);
    // and a second press of the start button does not restart the launch
    state.dispatch_press(panther_tracker::geom::Pos::new(500, 1200), 10);
    match &state.screens[0] {
        Screen::Main(main) => assert_eq!(main.bot_animation, Some(0)),
        other => panic!("main screen expected, got {:?}", other),
    }
}

#[test]
fn back_on_records_navigates_home() {
    let mut state = AppState::new();
    state.push_screen(Screen::Main(MainScreen::new(0)));
    state.push_screen(Screen::Records(RecordsScreen::new(1)));
    state.dispatch_back(50);
    assert_eq!(state.screens.len(), 3);
    assert_eq!(state.screens[2], Screen::Main(MainScreen::new(50)));
    assert!(!state.exit_request);
}

#[test]
fn back_on_the_last_main_screen_exits() {
    let mut state = AppState::new();
    state.push_screen(Screen::Main(MainScreen::new(0)));
    state.dispatch_back(10);
    assert_eq!(state.screens.len(), 0);
    assert!(state.exit_request);
}

#[test]
fn back_on_training_toggles_pause() {
    let mut state = AppState::new();
    state.push_screen(Screen::ActiveTraining(ActiveTrainingScreen::new(0)));
    state.dispatch_back(10);
    assert_eq!(state.screens.len(), 1);
    assert!(!state.exit_request);
    match &state.screens[0] {
        Screen::ActiveTraining(training) => assert!(training.is_pause),
        other => panic!("training screen expected, got {:?}", other),
    }
    state.dispatch_back(20);
    match &state.screens[0] {
        Screen::ActiveTraining(training) => assert!(!training.is_pause),
        other => panic!("training screen expected, got {:?}", other),
    }
}

#[test]
fn press_on_training_toggles_pause() {
    let mut state = AppState::new();
    state.push_screen(Screen::ActiveTraining(ActiveTrainingScreen::new(0)));
    state.dispatch_press(panther_tracker::geom::Pos::new(500, 500), 10);
    match &state.screens[0] {
        Screen::ActiveTraining(training) => assert!(training.is_pause),
        other => panic!("training screen expected, got {:?}", other),
    }
}
