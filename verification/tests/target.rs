use screen_capture::display::{MonitorProbe, WindowProbe};
use screen_capture::error::{CaptureError, MissingTarget};
use screen_capture::target::{get_monitor_at_cursor, screen_target, stream_target, window_target};

fn placed(id: Option<u32>, x: i32, y: i32, width: u32, height: u32, primary: Option<bool>) -> MonitorProbe {
    MonitorProbe {
        id,
        name: Some("m".to_string()),
        x: Some(x),
        y: Some(y),
        width: Some(width),
        height: Some(height),
        is_primary: primary,
    }
}

fn titled(id: Option<u32>) -> WindowProbe {
    WindowProbe {
        id,
        title: Some("t".to_string()),
        app_name: Some("a".to_string()),
        width: Some(640),
        height: Some(480),
    }
}

fn two_monitors() -> Result<Vec<MonitorProbe>, String> {
    Ok(vec![
        placed(Some(10), 0, 0, 1920, 1080, Some(false)),
        placed(Some(20), 1920, 0, 1280, 1024, Some(true)),
    ])
}

#[test]
fn screen_target_by_id() {
    assert_eq!(screen_target(&two_monitors(), Some(20)), Ok(1));
    assert_eq!(screen_target(&two_monitors(), Some(10)), Ok(0));
}

#[test]
fn screen_target_takes_the_first_of_equal_ids() {
    let snapshot = Ok(vec![
        placed(Some(1), 0, 0, 10, 10, None),
        placed(Some(2), 0, 0, 10, 10, None),
        placed(Some(2), 0, 0, 10, 10, None),
    ]);
    assert_eq!(screen_target(&snapshot, Some(2)), Ok(1));
}

#[test]
fn screen_target_unknown_id_is_not_found() {
    let res = screen_target(&two_monitors(), Some(30));
    assert_eq!(res, Err(CaptureError::TargetNotFound(MissingTarget::Monitor)));
    assert_eq!(res.unwrap_err().message(), "Monitor not found");
}

#[test]
fn screen_target_unreadable_id_answers_to_zero() {
    let snapshot = Ok(vec![
        placed(Some(5), 0, 0, 10, 10, None),
        placed(None, 0, 0, 10, 10, None),
    ]);
    assert_eq!(screen_target(&snapshot, Some(0)), Ok(1));
}

#[test]
fn screen_target_defaults_to_primary() {
    assert_eq!(screen_target(&two_monitors(), None), Ok(1));
}

#[test]
fn screen_target_falls_back_to_first() {
    let snapshot = Ok(vec![
        placed(Some(10), 0, 0, 1920, 1080, Some(false)),
        placed(Some(20), 1920, 0, 1280, 1024, None),
    ]);
    assert_eq!(screen_target(&snapshot, None), Ok(0));
}

#[test]
fn screen_target_of_empty_snapshot() {
    let res = screen_target(&Ok(Vec::new()), None);
    assert_eq!(res, Err(CaptureError::TargetNotFound(MissingTarget::AnyMonitor)));
    assert_eq!(res.unwrap_err().message(), "No monitor found");
    assert_eq!(
        screen_target(&Ok(Vec::new()), Some(1)),
        Err(CaptureError::TargetNotFound(MissingTarget::Monitor))
    );
}

#[test]
fn screen_target_hands_on_enumeration_failure() {
    assert_eq!(
        screen_target(&Err("boom".to_string()), None),
        Err(CaptureError::Enumeration("boom".to_string()))
    );
}

#[test]
fn stream_target_is_chosen_as_the_screen_target() {
    let probes = vec![
        placed(Some(10), 0, 0, 1920, 1080, Some(false)),
        placed(Some(20), 1920, 0, 1280, 1024, None),
    ];
    assert_eq!(stream_target(&probes, None), Ok(0));
    assert_eq!(stream_target(&probes, Some(20)), Ok(1));
    assert_eq!(stream_target(&probes, Some(21)), Err(MissingTarget::Monitor));
    assert_eq!(stream_target(&two_monitors().unwrap(), None), Ok(1));
    assert_eq!(stream_target(&Vec::new(), None), Err(MissingTarget::AnyMonitor));
    assert_eq!(stream_target(&Vec::new(), Some(0)), Err(MissingTarget::Monitor));
}

#[test]
fn stream_target_agrees_with_screen_target() {
    let snapshots = [
        two_monitors().unwrap(),
        Vec::new(),
        vec![placed(None, 0, 0, 10, 10, None), placed(Some(3), 0, 0, 10, 10, Some(true))],
    ];
    for probes in snapshots {
        for wanted in [None, Some(0), Some(3), Some(10), Some(20), Some(99)] {
            let streamed = stream_target(&probes, wanted).map_err(CaptureError::TargetNotFound);
            assert_eq!(screen_target(&Ok(probes.clone()), wanted), streamed);
        }
    }
}

#[test]
fn window_target_by_id() {
    let snapshot = Ok(vec![titled(Some(4)), titled(None), titled(Some(6)), titled(Some(6))]);
    assert_eq!(window_target(&snapshot, 6), Ok(2));
    assert_eq!(window_target(&snapshot, 0), Ok(1));
    let res = window_target(&snapshot, 7);
    assert_eq!(res, Err(CaptureError::TargetNotFound(MissingTarget::Window)));
    assert_eq!(res.unwrap_err().message(), "Window not found");
}

#[test]
fn window_target_hands_on_enumeration_failure() {
    assert_eq!(
        window_target(&Err("denied".to_string()), 1),
        Err(CaptureError::Enumeration("denied".to_string()))
    );
}

#[test]
fn cursor_on_upper_left_corner_is_inside() {
    let snapshot = Ok(vec![placed(Some(1), 100, 50, 800, 600, None)]);
    assert_eq!(get_monitor_at_cursor(Some((100, 50)), &snapshot), Some(0));
}

#[test]
fn cursor_on_right_or_lower_edge_is_outside() {
    let snapshot = Ok(vec![placed(Some(1), 100, 50, 800, 600, None)]);
    assert_eq!(get_monitor_at_cursor(Some((900, 50)), &snapshot), None);
    assert_eq!(get_monitor_at_cursor(Some((100, 650)), &snapshot), None);
    assert_eq!(get_monitor_at_cursor(Some((899, 649)), &snapshot), Some(0));
    assert_eq!(get_monitor_at_cursor(Some((99, 50)), &snapshot), None);
    assert_eq!(get_monitor_at_cursor(Some((100, 49)), &snapshot), None);
}

#[test]
fn cursor_on_shared_edge_belongs_to_the_right_monitor() {
    let snapshot = two_monitors();
    assert_eq!(get_monitor_at_cursor(Some((1919, 10)), &snapshot), Some(0));
    assert_eq!(get_monitor_at_cursor(Some((1920, 10)), &snapshot), Some(1));
    assert_eq!(get_monitor_at_cursor(Some((3200, 10)), &snapshot), None);
    assert_eq!(get_monitor_at_cursor(Some((1920, 1050)), &snapshot), None);
}

#[test]
fn cursor_takes_the_first_of_overlapping_monitors() {
    let snapshot = Ok(vec![
        placed(Some(1), 0, 0, 100, 100, None),
        placed(Some(2), 50, 50, 100, 100, None),
    ]);
    assert_eq!(get_monitor_at_cursor(Some((60, 60)), &snapshot), Some(0));
    assert_eq!(get_monitor_at_cursor(Some((120, 120)), &snapshot), Some(1));
}

#[test]
fn cursor_left_of_origin() {
    let snapshot = Ok(vec![placed(Some(1), -1920, -200, 1920, 1080, None)]);
    assert_eq!(get_monitor_at_cursor(Some((-1920, -200)), &snapshot), Some(0));
    assert_eq!(get_monitor_at_cursor(Some((-1, 879)), &snapshot), Some(0));
    assert_eq!(get_monitor_at_cursor(Some((0, 0)), &snapshot), None);
}

#[test]
fn cursor_lookup_does_not_overflow() {
    let snapshot = Ok(vec![placed(Some(1), i32::MAX - 1, i32::MIN, u32::MAX, u32::MAX, None)]);
    assert_eq!(get_monitor_at_cursor(Some((i32::MAX, i32::MAX - 1)), &snapshot), Some(0));
    assert_eq!(get_monitor_at_cursor(Some((i32::MAX, i32::MAX)), &snapshot), None);
    assert_eq!(get_monitor_at_cursor(Some((i32::MAX - 2, 0)), &snapshot), None);
}

#[test]
fn cursor_on_monitor_without_area_is_outside() {
    let snapshot = Ok(vec![placed(Some(1), 0, 0, 0, 600, None)]);
    assert_eq!(get_monitor_at_cursor(Some((0, 0)), &snapshot), None);
}

#[test]
fn cursor_with_unreadable_geometry_uses_defaults() {
    let probe = MonitorProbe {
        id: Some(1),
        name: None,
        x: None,
        y: None,
        width: Some(10),
        height: Some(10),
        is_primary: None,
    };
    let snapshot = Ok(vec![probe]);
    assert_eq!(get_monitor_at_cursor(Some((0, 0)), &snapshot), Some(0));
    assert_eq!(get_monitor_at_cursor(Some((10, 0)), &snapshot), None);
}

#[test]
fn unknown_pointer_or_failed_enumeration_finds_nothing() {
    assert_eq!(get_monitor_at_cursor(None, &two_monitors()), None);
    assert_eq!(get_monitor_at_cursor(Some((5, 5)), &Err("x".to_string())), None);
}
