use slint_android::{
    current_page, init_navigation_state, on_host_back_request, pop_page, push_page, BackOutcome,
    Delivery, ExitDecision, NavigationState, UiCommand,
};

#[derive(Clone, Copy, Debug, PartialEq, Eq)]
enum Page {
    Home,
    Settings,
    A,
    B,
    C,
}

fn deferred(page: Page) -> Option<UiCommand<Page>> {
    Some(UiCommand { page, delivery: Delivery::Deferred })
}

#[test]
fn back_from_settings_returns_home_then_exits() {
    let mut state = NavigationState::new();
    init_navigation_state(&mut state, Page::Home);

    push_page(&mut state, Page::Settings);
    assert_eq!(current_page(&state), Some(Page::Settings));

    let first = on_host_back_request(&mut state);
    assert_eq!(first.decision, ExitDecision::ContinueApp);
    assert_eq!(first.command, deferred(Page::Home));
    assert_eq!(current_page(&state), Some(Page::Home));

    let second = on_host_back_request(&mut state);
    assert_eq!(second, BackOutcome { decision: ExitDecision::ExitApp, command: None });
    assert_eq!(current_page(&state), Some(Page::Home));
    assert!(!pop_page(&mut state));
}

#[test]
fn back_before_initialization_exits_without_command() {
    let mut state: NavigationState<Page> = NavigationState::new();

    let outcome = on_host_back_request(&mut state);
    assert_eq!(outcome.decision, ExitDecision::ExitApp);
    assert_eq!(outcome.command, None);
    assert!(outcome.decision.exits());
    assert_eq!(current_page(&state), None);
    assert!(!state.is_initialized());
}

#[test]
fn backs_from_depth_four_continue_down_to_root_then_exit() {
    let mut state = NavigationState::new();
    init_navigation_state(&mut state, Page::Home);
    push_page(&mut state, Page::A);
    push_page(&mut state, Page::B);
    push_page(&mut state, Page::C);
    assert_eq!(current_page(&state), Some(Page::C));

    let first = on_host_back_request(&mut state);
    assert_eq!(first.decision, ExitDecision::ContinueApp);
    assert_eq!(first.command, deferred(Page::B));
    assert_eq!(current_page(&state), Some(Page::B));

    let second = on_host_back_request(&mut state);
    assert_eq!(second.decision, ExitDecision::ContinueApp);
    assert_eq!(second.command, deferred(Page::A));
    assert_eq!(current_page(&state), Some(Page::A));

    let third = on_host_back_request(&mut state);
    assert_eq!(third.decision, ExitDecision::ContinueApp);
    assert_eq!(third.command, deferred(Page::Home));
    assert_eq!(current_page(&state), Some(Page::Home));

    let fourth = on_host_back_request(&mut state);
    assert_eq!(fourth.decision, ExitDecision::ExitApp);
    assert_eq!(fourth.command, None);
    assert_eq!(current_page(&state), Some(Page::Home));
    assert!(!pop_page(&mut state));
}
