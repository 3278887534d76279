use fun_capture::display::{
    get_displays, get_primary, Display, DisplayKind, Displays, EnumerationError, MonitorInfo,
    MonitorQuery, MONITOR_PRIMARY_FLAG,
};

fn info(left: i32, top: i32, right: i32, bottom: i32, flags: u32) -> MonitorInfo {
    MonitorInfo { left, top, right, bottom, flags }
}

#[test]
fn display_from_primary_monitor_info() {
    let d = Display::new(info(0, 0, 1920, 1080, MONITOR_PRIMARY_FLAG), 7);
    assert_eq!(d.handle(), 7);
    assert_eq!(d.x(), 0);
    assert_eq!(d.y(), 0);
    assert_eq!(d.width(), 1920);
    assert_eq!(d.height(), 1080);
    assert_eq!(d.kind(), DisplayKind::Primary);
}

#[test]
fn display_from_secondary_monitor_left_of_primary() {
    let d = Display::new(info(-1280, -200, 0, 824, 0), 9);
    assert_eq!(d.x(), -1280);
    assert_eq!(d.y(), -200);
    assert_eq!(d.width(), 1280);
    assert_eq!(d.height(), 1024);
    assert_eq!(d.kind(), DisplayKind::Standard);
}

#[test]
fn display_extent_wraps_when_rectangle_is_inverted() {
    let d = Display::new(info(10, 10, 9, 10, 2), 1);
    assert_eq!(d.width(), u32::MAX);
    assert_eq!(d.height(), 0);
    assert_eq!(d.kind(), DisplayKind::Standard);
}

#[test]
fn display_extent_spans_whole_i32_range() {
    let d = Display::new(info(i32::MIN, 0, i32::MAX, 1, 0), 1);
    assert_eq!(d.width(), u32::MAX);
}

#[test]
fn kind_from_main_flag() {
    assert_eq!(DisplayKind::from_main_flag(1), DisplayKind::Primary);
    assert_eq!(DisplayKind::from_main_flag(0), DisplayKind::Standard);
    assert_eq!(DisplayKind::from_main_flag(2), DisplayKind::Standard);
}

#[test]
fn primary_from_successful_query() {
    let r = get_primary(3, Some(info(0, 0, 2560, 1440, MONITOR_PRIMARY_FLAG)), 0).unwrap();
    assert_eq!(r.x(), 0);
    assert_eq!(r.y(), 0);
    assert!(r.width() > 0);
    assert!(r.height() > 0);
    assert_eq!(r.kind(), DisplayKind::Primary);
}

#[test]
fn primary_from_failed_query_is_error() {
    assert_eq!(get_primary(3, None, 1461), Err(EnumerationError { code: 1461 }));
}

#[test]
fn displays_keep_enumeration_order() {
    let found = vec![
        MonitorQuery { handle: 1, info: Some(info(0, 0, 1920, 1080, MONITOR_PRIMARY_FLAG)), os_error: 0 },
        MonitorQuery { handle: 3, info: Some(info(1920, 0, 3200, 1024, 0)), os_error: 0 },
    ];
    let ds = get_displays(true, 0, &found).unwrap();
    assert_eq!(ds.len(), 2);
    assert_eq!(ds[0].handle(), 1);
    assert_eq!(ds[0].kind(), DisplayKind::Primary);
    assert_eq!(ds[1].handle(), 3);
    assert_eq!(ds[1].x(), 1920);
    assert_eq!(ds[1].width(), 1280);
    assert_eq!(ds[1].kind(), DisplayKind::Standard);
    assert_eq!(ds.iter().filter(|d| d.kind() == DisplayKind::Primary).count(), 1);
}

#[test]
fn displays_empty_enumeration_is_not_an_error() {
    assert_eq!(get_displays(true, 0, &Vec::new()), Ok(Vec::new()));
}

#[test]
fn displays_failed_enumeration_is_error() {
    let found = vec![MonitorQuery { handle: 1, info: Some(info(0, 0, 1, 1, 1)), os_error: 0 }];
    assert_eq!(get_displays(false, 5, &found), Err(EnumerationError { code: 5 }));
}

#[test]
fn displays_are_handed_out_in_order() {
    let a = Display::new(info(0, 0, 10, 10, 1), 1);
    let b = Display::new(info(10, 0, 20, 10, 0), 2);
    let mut ds = Displays::new(vec![a, b]);
    assert_eq!(ds.next(), Some(a));
    assert_eq!(ds.next(), Some(b));
    assert_eq!(ds.next(), None);
    assert_eq!(ds.next(), None);
}

#[test]
fn displays_failed_monitor_query_is_error() {
    let found = vec![
        MonitorQuery { handle: 1, info: Some(info(0, 0, 1920, 1080, MONITOR_PRIMARY_FLAG)), os_error: 0 },
        MonitorQuery { handle: 2, info: None, os_error: 87 },
        MonitorQuery { handle: 3, info: None, os_error: 6 },
    ];
    assert_eq!(get_displays(true, 0, &found), Err(EnumerationError { code: 87 }));
}
