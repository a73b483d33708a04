use desktop_control::error::ControlError;
use desktop_control::monitor::{find_by_id, global_to_local, local_to_global, MonitorInfo, Point};

fn monitor(id: &str, x: i32, y: i32) -> MonitorInfo {
    MonitorInfo {
        id: id.to_string(),
        name: format!("Display {}", id),
        is_primary: x == 0 && y == 0,
        width: 1920,
        height: 1080,
        x,
        y,
    }
}

#[test]
fn find_by_id_returns_the_matching_monitor() {
    let ms = vec![monitor("1", 0, 0), monitor("2", 1920, 0)];
    assert_eq!(find_by_id(&ms, "2"), Ok(monitor("2", 1920, 0)));
    assert_eq!(find_by_id(&ms, "1"), Ok(monitor("1", 0, 0)));
}

#[test]
fn find_by_id_fails_on_absent_id() {
    let ms = vec![monitor("1", 0, 0), monitor("2", 1920, 0)];
    assert_eq!(find_by_id(&ms, "3"), Err(ControlError::MonitorNotFound));
    assert_eq!(find_by_id(&ms, ""), Err(ControlError::MonitorNotFound));
    assert_eq!(find_by_id(&ms, "12"), Err(ControlError::MonitorNotFound));
    assert_eq!(find_by_id(&Vec::new(), "1"), Err(ControlError::MonitorNotFound));
}

#[test]
fn find_by_id_takes_the_first_of_equal_ids() {
    let ms = vec![monitor("5", 0, 0), monitor("5", 100, 0)];
    assert_eq!(find_by_id(&ms, "5"), Ok(monitor("5", 0, 0)));
}

#[test]
fn coordinates_translate_by_the_origin() {
    let m = monitor("2", 1920, -1080);
    assert_eq!(local_to_global(&m, Point { x: 10, y: 20 }), Some(Point { x: 1930, y: -1060 }));
    assert_eq!(global_to_local(&m, Point { x: 1930, y: -1060 }), Some(Point { x: 10, y: 20 }));
    assert_eq!(global_to_local(&m, Point { x: 0, y: 0 }), Some(Point { x: -1920, y: 1080 }));
}

#[test]
fn coordinates_round_trip() {
    let m = monitor("2", 1920, 0);
    for p in [Point { x: 0, y: 0 }, Point { x: -5, y: 700 }, Point { x: i32::MAX - 1920, y: i32::MIN }] {
        let g = local_to_global(&m, p).unwrap();
        assert_eq!(global_to_local(&m, g), Some(p));
    }
}

#[test]
fn coordinates_out_of_range() {
    let m = monitor("2", 1920, -1);
    assert_eq!(local_to_global(&m, Point { x: i32::MAX, y: 0 }), None);
    assert_eq!(local_to_global(&m, Point { x: 0, y: i32::MIN }), None);
    assert_eq!(global_to_local(&m, Point { x: i32::MIN, y: 0 }), None);
    assert_eq!(global_to_local(&m, Point { x: 0, y: i32::MAX }), None);
}
