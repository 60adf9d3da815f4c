use panther_tracker::app::{App, MyInputEvent};
use panther_tracker::geom::Pos;
use panther_tracker::gesture::TouchPhase;
use panther_tracker::screens::{Screen, ScreenKind};

#[test]
fn records_tap_expands_over_the_main_screen() {
    // the application boots with the main screen alone
    let mut app = App::new();
    app.resume(0);
    assert_eq!(app.app_state.screens.len(), 1);
    assert!(matches!(app.app_state.screens[0], Screen::Main(_)));

    // a tap inside the records tab pushes the records screen
    app.handle_touch(1, Pos::new(500, 100), TouchPhase::Started, 10);
    app.handle_touch(1, Pos::new(500, 100), TouchPhase::Ended, 20);
    assert_eq!(app.app_state.screens.len(), 2);
    assert!(matches!(app.app_state.screens[1], Screen::Records(_)));

    // while the records screen has not expanded yet, the main screen
    // below it is still ticked and drawn
    let plan = app.handle_redraw_request(500).expect("a stacked application draws");
    assert_eq!(
        plan.iter().map(|op| op.kind).collect::<Vec<_>>(),
        vec![ScreenKind::Main, ScreenKind::Records],
    );
    assert_eq!(app.app_state.screens.len(), 2);

    // once its expansion time has passed, pruning drops the main screen
    let plan = app.handle_redraw_request(1100).expect("a stacked application draws");
    assert_eq!(
        plan.iter().map(|op| op.kind).collect::<Vec<_>>(),
        vec![ScreenKind::Main, ScreenKind::Records, ScreenKind::Records],
    );
    assert_eq!(app.app_state.screens.len(), 1);
    assert!(matches!(app.app_state.screens[0], Screen::Records(_)));
    assert!(!app.app_state.exit_request);
}

#[test]
fn redraw_before_resume_draws_nothing() {
    let mut app = App::new();
    assert!(app.handle_redraw_request(0).is_none());
}

#[test]
fn close_request_raises_the_exit_signal() {
    let mut app = App::new();
    app.resume(0);
    assert!(!app.app_state.exit_request);
    app.handle_close_request();
    assert!(app.app_state.exit_request);
    assert_eq!(app.app_state.screens.len(), 1);
}

#[test]
fn input_events_route_to_the_handlers() {
    let mut app = App::new();
    app.resume(0);
    app.process_input(MyInputEvent::TouchEvent(1, Pos::new(800, 100), TouchPhase::Started), 5);
    app.process_input(MyInputEvent::TouchEvent(1, Pos::new(800, 100), TouchPhase::Ended), 15);
    assert!(matches!(app.app_state.screens[1], Screen::Stats(_)));
    app.process_input(MyInputEvent::Back, 20);
    // the stats screen's back action navigates home
    assert_eq!(app.app_state.screens.len(), 3);
    assert!(matches!(app.app_state.screens[2], Screen::Main(_)));
}

#[test]
fn back_with_no_screens_is_ignored() {
    let mut app = App::new();
    app.handle_back_button(5);
    assert_eq!(app.app_state.screens.len(), 0);
    assert!(!app.app_state.exit_request);
}
