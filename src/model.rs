use vstd::prelude::*;

verus! {

/// An axis-aligned rectangle in the window manager's coordinate space. Each
/// coordinate is kept as the bit pattern of its IEEE-754 single-precision value.
#[derive(Clone, Copy, Debug, PartialEq, Eq, Structural)]
pub struct Frame {
    pub x_bits: u32,
    pub y_bits: u32,
    pub w_bits: u32,
    pub h_bits: u32,
}

/// One on-screen surface, with every attribute that the window manager reports.
#[derive(Clone, Debug)]
pub struct Window {
    pub id: i32,
    pub pid: i32,
    pub app: String,
    pub title: String,
    pub scratchpad: String,
    pub frame: Frame,
    pub role: String,
    pub sub_role: String,
    pub root_window: bool,
    pub display: i32,
    pub space: i32,
    pub level: i32,
    pub sub_level: i32,
    pub layer: String,
    pub sub_layer: String,
    /// Bit pattern of the IEEE-754 single-precision opacity.
    pub opacity_bits: u32,
    pub split_type: String,
    pub split_child: String,
    pub stack_index: i32,
    pub can_move: bool,
    pub can_resize: bool,
    pub has_focus: bool,
    pub has_shadow: bool,
    pub has_parent_zoom: bool,
    pub has_fullscreen_zoom: bool,
    pub has_ax_reference: bool,
    pub is_native_fullscreen: bool,
    pub is_visible: bool,
    pub is_minimized: bool,
    pub is_hidden: bool,
    pub is_floating: bool,
    pub is_sticky: bool,
    pub is_grabbed: bool,
}

/// One virtual desktop.
#[derive(Clone, Debug)]
pub struct Space {
    pub id: i32,
    pub uuid: String,
    /// 1-based position of the space.
    pub index: i32,
    pub label: String,
    pub space_type: String,
    pub display: i32,
    /// Ids of the member windows, in the order reported.
    pub windows: Vec<i32>,
    pub first_window: i32,
    pub last_window: i32,
    pub has_focus: bool,
    pub is_visible: bool,
    pub is_native_fullscreen: bool,
}

} // verus!
