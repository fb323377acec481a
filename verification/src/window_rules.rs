//! The pure decisions of window creation: style bits, the initial client
//! rectangle, placement, and the rectangle arithmetic behind size queries
//! and fullscreen switching.  The operating-system calls that act on these
//! values live in the host layer.

use vstd::prelude::*;

verus! {

/// Extended style: the window appears on the taskbar.
pub const WS_EX_APPWINDOW: u32 = 0x0004_0000;

/// Extended style: raised border edge.
pub const WS_EX_WINDOWEDGE: u32 = 0x0000_0100;

/// Style: borderless pop-up window.
pub const WS_POPUP: u32 = 0x8000_0000;

/// Style: clip sibling windows when drawing.
pub const WS_CLIPSIBLINGS: u32 = 0x0400_0000;

/// Style: clip child windows when drawing.
pub const WS_CLIPCHILDREN: u32 = 0x0200_0000;

/// Style: the ordinary decorated top-level window.
pub const WS_OVERLAPPEDWINDOW: u32 = 0x00CF_0000;

/// Style: initially visible.
pub const WS_VISIBLE: u32 = 0x1000_0000;

/// Style: a child window.
pub const WS_CHILD: u32 = 0x4000_0000;

/// A window rectangle in screen or client coordinates.
#[derive(Clone, Copy, PartialEq, Eq, Debug)]
pub struct WindowRect {
    pub left: i32,
    pub top: i32,
    pub right: i32,
    pub bottom: i32,
}

/// A display mode for fullscreen switching.
#[derive(Clone, Copy, PartialEq, Eq, Debug)]
pub struct DisplayMode {
    pub width: u32,
    pub height: u32,
    pub bits_per_pel: u32,
}

/// The fallback client size used when the caller named none.
pub const DEFAULT_CLIENT_WIDTH: u32 = 1024;

/// See `DEFAULT_CLIENT_WIDTH`.
pub const DEFAULT_CLIENT_HEIGHT: u32 = 768;

/// The extended style and the base style of a new window.
///
/// Fullscreen or undecorated windows are bare pop-ups (plain clipped
/// children when a parent window is given, since pop-up and child styles
/// exclude each other); everything else is an ordinary decorated window.
pub fn base_window_styles(fullscreen: bool, decorations: bool, has_parent: bool) -> (r: (
    u32,
    u32,
))
    ensures
        (fullscreen || !decorations) ==> r == (
            WS_EX_APPWINDOW,
            if has_parent {
                WS_CLIPSIBLINGS | WS_CLIPCHILDREN
            } else {
                WS_POPUP | WS_CLIPSIBLINGS | WS_CLIPCHILDREN
            },
        ),
        !(fullscreen || !decorations) ==> r == (
            WS_EX_APPWINDOW | WS_EX_WINDOWEDGE,
            WS_OVERLAPPEDWINDOW | WS_CLIPSIBLINGS | WS_CLIPCHILDREN,
        ),
{
    if fullscreen || !decorations {
        (
            WS_EX_APPWINDOW,
            if has_parent {
                WS_CLIPSIBLINGS | WS_CLIPCHILDREN
            } else {
                WS_POPUP | WS_CLIPSIBLINGS | WS_CLIPCHILDREN
            },
        )
    } else {
        (
            WS_EX_APPWINDOW | WS_EX_WINDOWEDGE,
            WS_OVERLAPPEDWINDOW | WS_CLIPSIBLINGS | WS_CLIPCHILDREN,
        )
    }
}

/// The style the window is finally created with: the base style, plus
/// visibility when asked for, plus the child bit under a parent window.
pub fn creation_style(base_style: u32, visible: bool, has_parent: bool) -> (r: u32)
    ensures
        has_parent ==> r == (if visible {
            base_style | WS_VISIBLE
        } else {
            base_style
        }) | WS_CHILD,
        !has_parent ==> r == (if visible {
            base_style | WS_VISIBLE
        } else {
            base_style
        }),
{
    let mut style = if visible {
        base_style | WS_VISIBLE
    } else {
        base_style
    };
    if has_parent {
        style = style | WS_CHILD;
    }
    style
}

/// The initial client rectangle: the requested dimensions, or the
/// fallback size when none were requested, anchored at the origin.
pub fn initial_client_rect(dimensions: Option<(u32, u32)>) -> (r: WindowRect)
    requires
        dimensions matches Some(d) ==> d.0 <= i32::MAX && d.1 <= i32::MAX,
    ensures
        r.left == 0 && r.top == 0,
        dimensions matches Some(d) ==> r.right == d.0 && r.bottom == d.1,
        dimensions is None ==> r.right == DEFAULT_CLIENT_WIDTH && r.bottom
            == DEFAULT_CLIENT_HEIGHT,
{
    match dimensions {
        Some(d) => WindowRect { left: 0, top: 0, right: d.0 as i32, bottom: d.1 as i32 },
        None => WindowRect {
            left: 0,
            top: 0,
            right: DEFAULT_CLIENT_WIDTH as i32,
            bottom: DEFAULT_CLIENT_HEIGHT as i32,
        },
    }
}

/// Width and height of a rectangle.
pub fn rect_size(rect: &WindowRect) -> (r: (u32, u32))
    requires
        rect.left <= rect.right,
        rect.top <= rect.bottom,
    ensures
        r.0 == rect.right - rect.left,
        r.1 == rect.bottom - rect.top,
{
    let width = (rect.right as i64 - rect.left as i64) as u32;
    let height = (rect.bottom as i64 - rect.top as i64) as u32;
    (width, height)
}

/// The size and position handed to window creation: an explicit size only
/// for fullscreen windows or when the caller asked for one, an explicit
/// position only for fullscreen windows; the system chooses the rest.
pub fn creation_placement(rect: &WindowRect, fullscreen: bool, explicit_size: bool) -> (r: (
    Option<(u32, u32)>,
    Option<(i32, i32)>,
))
    requires
        rect.left <= rect.right,
        rect.top <= rect.bottom,
    ensures
        (fullscreen || explicit_size) ==> (r.0 matches Some(s) && s.0 == rect.right - rect.left
            && s.1 == rect.bottom - rect.top),
        !(fullscreen || explicit_size) ==> r.0 is None,
        fullscreen ==> r.1 == Some((rect.left, rect.top)),
        !fullscreen ==> r.1 is None,
{
    let size: Option<(u32, u32)> = if fullscreen || explicit_size {
        Some(rect_size(rect))
    } else {
        None
    };
    let position: Option<(i32, i32)> = if fullscreen {
        Some((rect.left, rect.top))
    } else {
        None
    };
    (size, position)
}

/// The window rectangle shifted onto a monitor: every edge moves by the
/// monitor's position.
pub fn rect_on_monitor(rect: &WindowRect, monitor_x: i32, monitor_y: i32) -> (r: WindowRect)
    requires
        i32::MIN <= rect.left + monitor_x <= i32::MAX,
        i32::MIN <= rect.right + monitor_x <= i32::MAX,
        i32::MIN <= rect.top + monitor_y <= i32::MAX,
        i32::MIN <= rect.bottom + monitor_y <= i32::MAX,
    ensures
        r.left == rect.left + monitor_x,
        r.right == rect.right + monitor_x,
        r.top == rect.top + monitor_y,
        r.bottom == rect.bottom + monitor_y,
{
    WindowRect {
        left: rect.left + monitor_x,
        top: rect.top + monitor_y,
        right: rect.right + monitor_x,
        bottom: rect.bottom + monitor_y,
    }
}

/// The display mode a fullscreen switch asks the monitor for: the
/// rectangle's size at 32 bits per pixel.
pub fn fullscreen_display_mode(rect: &WindowRect) -> (r: DisplayMode)
    requires
        rect.left <= rect.right,
        rect.top <= rect.bottom,
    ensures
        r.width == rect.right - rect.left,
        r.height == rect.bottom - rect.top,
        r.bits_per_pel == 32,
{
    let size = rect_size(rect);
    DisplayMode { width: size.0, height: size.1, bits_per_pel: 32 }
}

} // verus!
