use dictation_core::overlay::{is_mouse_within_monitor, monitor_with_cursor, MonitorRect};
use dictation_core::shortcut::registered_at_startup;

fn monitor(x: i32, y: i32, width: u32, height: u32) -> MonitorRect {
    MonitorRect { x, y, width, height }
}

#[test]
fn cursor_inside_monitor() {
    let m = monitor(0, 0, 1920, 1080);
    assert!(is_mouse_within_monitor(0, 0, &m));
    assert!(is_mouse_within_monitor(1919, 1079, &m));
    assert!(!is_mouse_within_monitor(1920, 500, &m));
    assert!(!is_mouse_within_monitor(500, 1080, &m));
    assert!(!is_mouse_within_monitor(-1, 0, &m));
}

#[test]
fn cursor_on_monitor_with_negative_origin() {
    let m = monitor(-1280, -200, 1280, 1024);
    assert!(is_mouse_within_monitor(-1, -200, &m));
    assert!(!is_mouse_within_monitor(0, 0, &m));
}

#[test]
fn first_monitor_holding_cursor_is_chosen() {
    let monitors = vec![monitor(0, 0, 1920, 1080), monitor(1920, 0, 2560, 1440), monitor(1920, 0, 100, 100)];
    assert_eq!(monitor_with_cursor(Some((2000, 50)), &monitors), Some(1));
    assert_eq!(monitor_with_cursor(Some((10, 10)), &monitors), Some(0));
    assert_eq!(monitor_with_cursor(Some((-5, 10)), &monitors), None);
    assert_eq!(monitor_with_cursor(None, &monitors), None);
    assert_eq!(monitor_with_cursor(Some((10, 10)), &Vec::new()), None);
}

#[test]
fn startup_registration_rules() {
    assert!(!registered_at_startup("cancel", true));
    assert!(!registered_at_startup("transcribe_with_post_process", false));
    assert!(registered_at_startup("transcribe_with_post_process", true));
    assert!(registered_at_startup("transcribe", false));
    assert!(registered_at_startup("test", false));
}
