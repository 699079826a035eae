use widget_html::event::{from_mouse_event, to_input_event, Event, InputEvent, MouseEvent};

#[test]
fn mouse_event_keeps_the_position() {
    assert_eq!(from_mouse_event(3, -4), Event::Mouse(MouseEvent { x: 3, y: -4 }));
    assert_eq!(from_mouse_event(0, 0), Event::Mouse(MouseEvent { x: 0, y: 0 }));
}

#[test]
fn input_event_keeps_the_text() {
    assert_eq!(
        to_input_event(String::from("typed")),
        Event::Input(InputEvent { value: String::from("typed") })
    );
    assert_eq!(
        to_input_event(String::new()),
        Event::Input(InputEvent { value: String::new() })
    );
}
