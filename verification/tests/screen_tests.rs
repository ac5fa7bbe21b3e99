use blanknet::app::{App, CurrentScreen, IpInputStatus, Mode};
use blanknet::screen::{metric_cell, Hint, ScreenBody};

fn app() -> App {
    App::new(vec!["eth0".to_string()], String::new())
}

#[test]
fn body_follows_screen() {
    let mut a = app();
    assert_eq!(a.screen_view(), ScreenBody::HomeMenu);
    a.current_screen = CurrentScreen::Exiting;
    assert_eq!(a.screen_view(), ScreenBody::HomeMenu);
    a.current_screen = CurrentScreen::NodeView(Mode::Normal);
    assert_eq!(a.screen_view(), ScreenBody::Table { input_box: false });
    a.current_screen = CurrentScreen::NodeView(Mode::Delete);
    assert_eq!(a.screen_view(), ScreenBody::Table { input_box: false });
    a.current_screen = CurrentScreen::NodeView(Mode::Edit);
    assert_eq!(a.screen_view(), ScreenBody::Table { input_box: true });
    a.current_screen = CurrentScreen::NodeView(Mode::Push);
    assert_eq!(a.screen_view(), ScreenBody::Table { input_box: true });
    a.current_screen = CurrentScreen::InterfaceView;
    assert_eq!(a.screen_view(), ScreenBody::InterfaceMenu);
    a.current_screen = CurrentScreen::Help;
    assert_eq!(a.screen_view(), ScreenBody::Help);
    a.current_screen = CurrentScreen::Main;
    assert_eq!(a.screen_view(), ScreenBody::Blank);
    a.options_idx = 1;
    assert_eq!(a.screen_view(), ScreenBody::Metrics);
}

#[test]
fn footer_hints_follow_screen() {
    let mut a = app();
    assert_eq!(a.navigation_hints(), vec![Hint::Quit]);
    a.current_screen = CurrentScreen::Exiting;
    assert_eq!(a.navigation_hints(), vec![Hint::ConfirmExit]);
    a.current_screen = CurrentScreen::NodeView(Mode::Edit);
    assert_eq!(a.navigation_hints(), vec![Hint::Quit, Hint::StartPing, Hint::EditNode]);
}

#[test]
fn input_refusal_is_shown() {
    let mut a = app();
    assert!(!a.input_refused());
    a.ip_input_status = IpInputStatus::Error;
    assert!(a.input_refused());
}

#[test]
fn metrics_fill_two_rows_of_three() {
    assert_eq!(metric_cell(0), (0, 0));
    assert_eq!(metric_cell(2), (0, 2));
    assert_eq!(metric_cell(3), (1, 0));
    assert_eq!(metric_cell(5), (1, 2));
}
