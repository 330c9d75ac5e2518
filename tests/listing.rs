use spacelist::model::{Frame, Space, Window};
use spacelist::query::{
    listing, listing_bounds, space_info, space_query_args, window_query_args, window_result,
};
use spacelist::render::{push_decimal, render_line, render_lines};
use spacelist::selector::{select_parsed, select_space, SpaceSelector};

fn window(id: i32, space: i32, has_focus: bool, app: &str, title: &str) -> Window {
    Window {
        id,
        pid: 500,
        app: app.to_string(),
        title: title.to_string(),
        scratchpad: String::new(),
        frame: Frame { x_bits: 0, y_bits: 0, w_bits: 0x4480_0000, h_bits: 0x4440_0000 },
        role: "AXWindow".to_string(),
        sub_role: "AXStandardWindow".to_string(),
        root_window: true,
        display: 1,
        space,
        level: 0,
        sub_level: 0,
        layer: "normal".to_string(),
        sub_layer: "normal".to_string(),
        opacity_bits: 0x3f80_0000,
        split_type: "none".to_string(),
        split_child: "none".to_string(),
        stack_index: 0,
        can_move: true,
        can_resize: true,
        has_focus,
        has_shadow: true,
        has_parent_zoom: false,
        has_fullscreen_zoom: false,
        has_ax_reference: true,
        is_native_fullscreen: false,
        is_visible: true,
        is_minimized: false,
        is_hidden: false,
        is_floating: false,
        is_sticky: false,
        is_grabbed: false,
    }
}

fn space(index: i32, has_focus: bool) -> Space {
    Space {
        id: index + 100,
        uuid: format!("uuid-{}", index),
        index,
        label: String::new(),
        space_type: "bsp".to_string(),
        display: 1,
        windows: vec![index * 10, index * 10 + 1],
        first_window: index * 10,
        last_window: index * 10 + 1,
        has_focus,
        is_visible: has_focus,
        is_native_fullscreen: false,
    }
}

#[test]
fn argument_in_bounds_selects_that_space() {
    assert_eq!(select_space(Some("3"), 5), SpaceSelector::Index(3));
    let args = window_query_args(SpaceSelector::Index(3));
    assert_eq!(args, vec!["-m", "query", "--windows", "--space", "3"]);
}

#[test]
fn failed_space_query_falls_back_to_all() {
    assert_eq!(space_info(None), (0, 0));
    assert_eq!(select_space(Some("1"), 0), SpaceSelector::All);
}

#[test]
fn invalid_arguments_act_as_absent() {
    let absent = select_space(None, 5);
    assert_eq!(absent, SpaceSelector::All);
    for arg in ["0", "-2", "6", "abc", "", "+", "-", "3x", " 3", "3 ", "99999999999", "2.0"] {
        assert_eq!(select_space(Some(arg), 5), absent, "argument {:?}", arg);
    }
}

#[test]
fn signed_and_boundary_arguments() {
    assert_eq!(select_space(Some("+4"), 5), SpaceSelector::Index(4));
    assert_eq!(select_space(Some("1"), 5), SpaceSelector::Index(1));
    assert_eq!(select_space(Some("5"), 5), SpaceSelector::Index(5));
    assert_eq!(select_space(Some("007"), 7), SpaceSelector::Index(7));
    assert_eq!(select_parsed(Some(2), 1), SpaceSelector::All);
    assert_eq!(select_parsed(None, 9), SpaceSelector::All);
}

#[test]
fn window_query_for_all() {
    assert_eq!(window_query_args(SpaceSelector::All), vec!["-m", "query", "--windows"]);
    assert_eq!(
        window_query_args(SpaceSelector::Index(12)),
        vec!["-m", "query", "--windows", "--space", "12"]
    );
}

#[test]
fn space_query_arguments() {
    assert_eq!(space_query_args(), vec!["-m", "query", "--spaces"]);
}

#[test]
fn focused_window_line() {
    let w = window(12, 2, true, "Finder", "Desktop");
    assert_eq!(render_line(&w), "12 2 true  \"Finder\" \"Desktop\"");
}

#[test]
fn unfocused_window_line() {
    let w = window(-7, 0, false, "Terminal", "");
    assert_eq!(render_line(&w), "-7 0 false \"Terminal\" \"\"");
}

#[test]
fn decimal_extremes() {
    let mut s = String::from("n=");
    push_decimal(i32::MIN, &mut s);
    assert_eq!(s, "n=-2147483648");
    let mut t = String::new();
    push_decimal(i32::MAX, &mut t);
    assert_eq!(t, "2147483647");
    let mut z = String::new();
    push_decimal(0, &mut z);
    assert_eq!(z, "0");
}

#[test]
fn one_line_per_window_in_order() {
    let ws = vec![
        window(30, 1, false, "Mail", "Inbox"),
        window(10, 2, true, "Safari", "News"),
        window(20, 1, false, "Mail", "Inbox"),
    ];
    let lines = render_lines(&ws);
    assert_eq!(
        lines,
        vec![
            "30 1 false \"Mail\" \"Inbox\"",
            "10 2 true  \"Safari\" \"News\"",
            "20 1 false \"Mail\" \"Inbox\"",
        ]
    );
    assert_eq!(listing(&Some(ws)), lines);
}

#[test]
fn empty_window_list_prints_nothing() {
    assert!(render_lines(&Vec::new()).is_empty());
    assert!(listing(&Some(Vec::new())).is_empty());
}

#[test]
fn failed_window_query_prints_nothing() {
    let ws = vec![window(1, 1, true, "A", "B")];
    let failed = window_result(false, Some(ws.clone()));
    assert!(failed.is_none());
    assert!(listing(&failed).is_empty());
    let undecoded = window_result(true, None);
    assert!(undecoded.is_none());
    assert!(listing(&undecoded).is_empty());
    let ok = window_result(true, Some(ws));
    assert_eq!(listing(&ok), vec!["1 1 true  \"A\" \"B\""]);
}

#[test]
fn first_focused_space_gives_bounds() {
    let spaces = vec![space(1, false), space(2, true), space(3, true), space(4, false)];
    assert_eq!(listing_bounds(&spaces), (4, 2));
    assert_eq!(space_info(Some(spaces)), (4, 2));
}

#[test]
fn no_focused_space_gives_sentinel() {
    assert_eq!(space_info(Some(vec![space(1, false), space(2, false)])), (0, 0));
    assert_eq!(space_info(Some(Vec::new())), (0, 0));
}
