use whirlwing::events::{
    exit_requested, translate_message, window_procedure_action, Event, EventCategory, EventType,
    WindowProcedureAction, ESCAPE, KC_A, WM_CLOSE, WM_DESTROY, WM_KEYDOWN, WM_QUIT,
};

#[test]
fn quit_message_is_an_application_exit() {
    let e = translate_message(WM_QUIT, 0).unwrap();
    assert_eq!(e.event_type(), EventType::ApplicationExit);
    assert_eq!(e.event_category(), EventCategory::window_event());
}

#[test]
fn key_down_presses_the_low_byte_of_its_parameter() {
    let e = translate_message(WM_KEYDOWN, 0x41).unwrap();
    assert_eq!(e.event_type(), EventType::KeyPressed { key: KC_A, repeats: 0 });
    assert_eq!(e.event_category().bits(), 0b100);
    let e = translate_message(WM_KEYDOWN, 0x11B).unwrap();
    assert_eq!(e.event_type(), EventType::KeyPressed { key: ESCAPE, repeats: 0 });
}

#[test]
fn other_messages_have_no_event() {
    assert!(translate_message(WM_DESTROY, 0).is_none());
    assert!(translate_message(0x0200, 5).is_none());
}

#[test]
fn close_posts_quit_and_the_rest_go_to_the_default_procedure() {
    assert_eq!(window_procedure_action(WM_CLOSE), WindowProcedureAction::PostQuit);
    assert_eq!(window_procedure_action(WM_KEYDOWN), WindowProcedureAction::Default);
}

#[test]
fn exit_is_requested_by_quit_or_escape_only() {
    let key = |k| Event::new(EventType::KeyPressed { key: k, repeats: 0 }, EventCategory::keyboard_event());
    assert!(!exit_requested(&vec![]));
    assert!(!exit_requested(&vec![key('A'), key('B')]));
    assert!(exit_requested(&vec![key('A'), key(ESCAPE)]));
    assert!(exit_requested(&vec![Event::new(EventType::ApplicationExit, EventCategory::window_event())]));
    let moved = Event::new(EventType::MouseMoved { x_offset: 1, y_offset: 2 }, EventCategory::mouse_event());
    assert!(!exit_requested(&vec![moved]));
}

#[test]
fn categories_combine_as_bit_sets() {
    let both = EventCategory::window_event().union(EventCategory::keyboard_event());
    assert_eq!(both.bits(), 0b101);
    assert!(both.contains(EventCategory::keyboard_event()));
    assert!(!both.contains(EventCategory::mouse_event()));
}
