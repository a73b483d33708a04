use desktop_control::dispatch::{
    click, cursor_position, move_cursor, parse_button, press_key, type_text, InputAction,
    MouseButton,
};
use desktop_control::error::ControlError;
use desktop_control::keys::KeyId;
use desktop_control::monitor::{MonitorInfo, Point};

fn monitor(id: &str, x: i32, y: i32) -> MonitorInfo {
    MonitorInfo {
        id: id.to_string(),
        name: String::new(),
        is_primary: x == 0 && y == 0,
        width: 1920,
        height: 1080,
        x,
        y,
    }
}

fn two_monitors() -> Vec<MonitorInfo> {
    vec![monitor("1", 0, 0), monitor("2", 1920, 0)]
}

#[test]
fn move_cursor_on_second_monitor() {
    assert_eq!(
        move_cursor(&two_monitors(), "2", 10, 20),
        Ok(vec![InputAction::MoveTo(Point { x: 1930, y: 20 })])
    );
    assert_eq!(
        move_cursor(&two_monitors(), "1", 10, 20),
        Ok(vec![InputAction::MoveTo(Point { x: 10, y: 20 })])
    );
}

#[test]
fn move_cursor_errors() {
    assert_eq!(move_cursor(&two_monitors(), "3", 10, 20), Err(ControlError::MonitorNotFound));
    assert_eq!(move_cursor(&two_monitors(), "2", i32::MAX, 0), Err(ControlError::OutOfRange));
}

#[test]
fn click_without_point_does_not_move() {
    assert_eq!(
        click(&two_monitors(), "2", "left", None, None),
        Ok(vec![InputAction::Click(MouseButton::Left)])
    );
    assert_eq!(
        click(&two_monitors(), "2", "right", Some(5), None),
        Ok(vec![InputAction::Click(MouseButton::Right)])
    );
    assert_eq!(
        click(&two_monitors(), "2", "right", None, Some(5)),
        Ok(vec![InputAction::Click(MouseButton::Right)])
    );
}

#[test]
fn click_with_point_moves_then_clicks() {
    assert_eq!(
        click(&two_monitors(), "2", "right", Some(10), Some(20)),
        Ok(vec![
            InputAction::MoveTo(Point { x: 1930, y: 20 }),
            InputAction::Click(MouseButton::Right)
        ])
    );
}

#[test]
fn click_errors_in_order() {
    assert_eq!(
        click(&two_monitors(), "9", "middle", Some(1), Some(1)),
        Err(ControlError::MonitorNotFound)
    );
    assert_eq!(
        click(&two_monitors(), "1", "middle", Some(1), Some(1)),
        Err(ControlError::InvalidButton)
    );
    assert_eq!(
        click(&two_monitors(), "2", "left", Some(i32::MAX), Some(1)),
        Err(ControlError::OutOfRange)
    );
}

#[test]
fn button_names_are_exact() {
    assert_eq!(parse_button("left"), Ok(MouseButton::Left));
    assert_eq!(parse_button("right"), Ok(MouseButton::Right));
    assert_eq!(parse_button("Left"), Err(ControlError::InvalidButton));
    assert_eq!(parse_button(""), Err(ControlError::InvalidButton));
    assert_eq!(parse_button("lefty"), Err(ControlError::InvalidButton));
}

#[test]
fn cursor_position_is_monitor_relative() {
    let m = monitor("2", 1920, 0);
    assert_eq!(cursor_position(&m, Point { x: 1930, y: 20 }), Ok(Point { x: 10, y: 20 }));
    assert_eq!(cursor_position(&m, Point { x: 100, y: 20 }), Ok(Point { x: -1820, y: 20 }));
    let far = monitor("3", -5, 0);
    assert_eq!(cursor_position(&far, Point { x: i32::MAX, y: 0 }), Err(ControlError::OutOfRange));
}

#[test]
fn type_text_is_one_insertion() {
    assert_eq!(
        type_text("héllo, world".to_string()),
        vec![InputAction::Text("héllo, world".to_string())]
    );
    assert_eq!(type_text(String::new()), vec![InputAction::Text(String::new())]);
}

#[test]
fn press_ctrl_s_is_two_discrete_clicks() {
    assert_eq!(
        press_key("ctrl+s"),
        Ok(vec![InputAction::KeyClick(KeyId::Control), InputAction::KeyClick(KeyId::Letter(b'S'))])
    );
}

#[test]
fn press_single_keys() {
    assert_eq!(press_key("Up"), Ok(vec![InputAction::KeyClick(KeyId::UpArrow)]));
    assert_eq!(press_key("a"), Ok(vec![InputAction::KeyClick(KeyId::Letter(b'A'))]));
    assert_eq!(press_key("ß"), Ok(vec![InputAction::KeyClick(KeyId::Unicode('ß'))]));
}

#[test]
fn press_key_unknown_issues_nothing() {
    assert_eq!(press_key("ctrl+nokey"), Err(ControlError::UnknownKey("nokey".to_string())));
    assert_eq!(press_key("A+B+C"), Err(ControlError::UnknownKey("B+C".to_string())));
    assert_eq!(press_key(""), Err(ControlError::UnknownKey(String::new())));
}

#[test]
fn error_messages() {
    assert_eq!(ControlError::MonitorNotFound.message(), "Monitor not found");
    assert_eq!(ControlError::InvalidButton.message(), "Invalid mouse button");
    assert_eq!(ControlError::UnknownKey("KP_0".to_string()).message(), "Unknown key: KP_0");
    assert_eq!(ControlError::OutOfRange.message(), "Coordinate out of range");
}
