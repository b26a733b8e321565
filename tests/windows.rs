use wmfocus::frame::{frame_layout, screen_size, FrameLayout};
use wmfocus::window::{
    find_client, focus_window, get_windows, swap_windows, ClientInfo, DesktopWindow, MonitorInfo,
    WindowError,
};

fn client(id: i64, address: &str, ws: i32, at: (i16, i16), size: (i16, i16)) -> ClientInfo {
    ClientInfo { id, address: address.to_string(), workspace_id: ws, at, size }
}

fn monitor(x: i32, y: i32, width: u16, height: u16, ws: i32) -> MonitorInfo {
    MonitorInfo { x, y, width, height, active_workspace_id: ws }
}

fn win(pos: (i32, i32), size: (i32, i32)) -> DesktopWindow {
    DesktopWindow { id: 0, pos, size, is_focused: false }
}

#[test]
fn enumeration_keeps_only_visible_workspaces() {
    let clients = vec![
        client(1, "0x1", 1, (0, 0), (800, 600)),
        client(2, "0x2", 2, (0, 0), (800, 600)),
        client(3, "0x3", 3, (800, 0), (800, 600)),
    ];
    let monitors = vec![monitor(0, 0, 800, 600, 1), monitor(800, 0, 800, 600, 3)];
    let r = get_windows(&clients, &monitors, &Some("0x3".to_string()));
    assert_eq!(
        r,
        vec![
            DesktopWindow { id: 1, pos: (0, 0), size: (800, 600), is_focused: false },
            DesktopWindow { id: 3, pos: (800, 0), size: (800, 600), is_focused: true },
        ]
    );
}

#[test]
fn enumeration_without_active_window_focuses_none() {
    let clients = vec![client(1, "0x1", 1, (-5, 7), (10, 20))];
    let monitors = vec![monitor(0, 0, 800, 600, 1)];
    let r = get_windows(&clients, &monitors, &None);
    assert_eq!(r, vec![DesktopWindow { id: 1, pos: (-5, 7), size: (10, 20), is_focused: false }]);
}

#[test]
fn enumeration_without_monitors_is_empty() {
    let clients = vec![client(1, "0x1", 1, (0, 0), (10, 20))];
    assert!(get_windows(&clients, &vec![], &None).is_empty());
}

#[test]
fn focus_finds_window_by_geometry() {
    let clients = vec![client(1, "0x1", 1, (0, 0), (800, 600)), client(2, "0x2", 1, (800, 0), (800, 600))];
    assert_eq!(focus_window(&clients, &win((800, 0), (800, 600))), Ok("0x2".to_string()));
}

#[test]
fn focus_without_match_is_not_found() {
    let clients = vec![client(1, "0x1", 1, (0, 0), (800, 600))];
    assert_eq!(focus_window(&clients, &win((0, 0), (800, 601))), Err(WindowError::NotFound));
    assert_eq!(focus_window(&vec![], &win((0, 0), (800, 600))), Err(WindowError::NotFound));
}

#[test]
fn focus_with_equal_geometry_takes_first_listed() {
    let clients = vec![
        client(1, "0x9", 1, (5, 5), (10, 10)),
        client(2, "0x1", 1, (0, 0), (800, 600)),
        client(3, "0x2", 2, (0, 0), (800, 600)),
    ];
    assert_eq!(find_client(&clients, &win((0, 0), (800, 600))), Some(1));
    assert_eq!(focus_window(&clients, &win((0, 0), (800, 600))), Ok("0x1".to_string()));
}

#[test]
fn swap_needs_both_windows() {
    let clients = vec![client(1, "0x1", 1, (0, 0), (800, 600)), client(2, "0x2", 1, (800, 0), (800, 600))];
    let active = win((0, 0), (800, 600));
    let target = win((800, 0), (800, 600));
    let gone = win((1, 1), (1, 1));
    assert_eq!(swap_windows(&clients, &active, &target), Ok("0x2".to_string()));
    assert_eq!(swap_windows(&clients, &gone, &target), Err(WindowError::ActiveNotFound));
    assert_eq!(swap_windows(&clients, &active, &gone), Err(WindowError::NotFound));
    assert_eq!(swap_windows(&clients, &gone, &gone), Err(WindowError::ActiveNotFound));
}

#[test]
fn screen_size_defaults_without_monitors() {
    assert_eq!(screen_size(&vec![]), (1920, 1080));
}

#[test]
fn screen_size_spans_all_monitors() {
    let monitors = vec![monitor(0, 0, 1920, 1080, 1), monitor(1920, 200, 2560, 1440, 2)];
    assert_eq!(screen_size(&monitors), (4480, 1640));
}

#[test]
fn screen_size_does_not_overflow() {
    let monitors = vec![monitor(i32::MAX, i32::MAX, u16::MAX, u16::MAX, 1)];
    assert_eq!(screen_size(&monitors), (i32::MAX as i64 + 65535, i32::MAX as i64 + 65535));
}

#[test]
fn frame_layout_is_exact() {
    assert_eq!(
        frame_layout(1920, 1080),
        Some(FrameLayout { width: 1920, height: 1080, stride: 7680, size: 8_294_400 })
    );
    assert_eq!(frame_layout(1, 1), Some(FrameLayout { width: 1, height: 1, stride: 4, size: 4 }));
}

#[test]
fn frame_layout_rejects_empty_and_oversized() {
    assert_eq!(frame_layout(0, 1080), None);
    assert_eq!(frame_layout(1920, -1), None);
    assert_eq!(frame_layout(32768, 16384), None);
    assert_eq!(frame_layout(i64::MAX, i64::MAX), None);
    assert_eq!(
        frame_layout(536_870_911, 1),
        Some(FrameLayout { width: 536_870_911, height: 1, stride: 2_147_483_644, size: 2_147_483_644 })
    );
}
