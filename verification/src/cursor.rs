//! Cursor policy: the mapping from the portable cursor shapes to native
//! cursor resources, and the state machine behind grabbing, hiding and
//! releasing the cursor.

use vstd::prelude::*;

verus! {

/// Native cursor resource: the standard arrow.
pub const IDC_ARROW: u16 = 32512;

/// Native cursor resource: the text I-beam.
pub const IDC_IBEAM: u16 = 32513;

/// Native cursor resource: the busy hourglass.
pub const IDC_WAIT: u16 = 32514;

/// Native cursor resource: the crosshair.
pub const IDC_CROSS: u16 = 32515;

/// Native cursor resource: horizontal resize.
pub const IDC_SIZEWE: u16 = 32644;

/// Native cursor resource: vertical resize.
pub const IDC_SIZENS: u16 = 32645;

/// Native cursor resource: the slashed circle.
pub const IDC_NO: u16 = 32648;

/// Native cursor resource: the pointing hand.
pub const IDC_HAND: u16 = 32649;

/// Native cursor resource: arrow with question mark.
pub const IDC_HELP: u16 = 32651;

/// The portable cursor shapes a caller can ask for.
#[derive(Clone, Copy, PartialEq, Eq, Debug)]
pub enum MouseCursor {
    Default,
    Arrow,
    Crosshair,
    Hand,
    Move,
    Text,
    VerticalText,
    Wait,
    Progress,
    Help,
    NotAllowed,
    NoDrop,
    ContextMenu,
    Cell,
    Alias,
    Grab,
    Grabbing,
    AllScroll,
    ZoomIn,
    ZoomOut,
    EResize,
    NResize,
    SResize,
    WResize,
    NeResize,
    NwResize,
    SeResize,
    SwResize,
    EwResize,
    NsResize,
    NeswResize,
    NwseResize,
    ColResize,
    RowResize,
}

/// The native resource each portable shape maps to.  Shapes the native
/// cursor table cannot express fall back to the arrow.
pub open spec fn spec_cursor_resource(cursor: MouseCursor) -> u16 {
    match cursor {
        MouseCursor::Arrow | MouseCursor::Default => IDC_ARROW,
        MouseCursor::Hand => IDC_HAND,
        MouseCursor::Crosshair => IDC_CROSS,
        MouseCursor::Text | MouseCursor::VerticalText => IDC_IBEAM,
        MouseCursor::NotAllowed | MouseCursor::NoDrop => IDC_NO,
        MouseCursor::EResize => IDC_SIZEWE,
        MouseCursor::NResize => IDC_SIZENS,
        MouseCursor::WResize => IDC_SIZEWE,
        MouseCursor::SResize => IDC_SIZENS,
        MouseCursor::EwResize | MouseCursor::ColResize => IDC_SIZEWE,
        MouseCursor::NsResize | MouseCursor::RowResize => IDC_SIZENS,
        MouseCursor::Wait | MouseCursor::Progress => IDC_WAIT,
        MouseCursor::Help => IDC_HELP,
        _ => IDC_ARROW,
    }
}

/// See `spec_cursor_resource`.
pub fn cursor_resource(cursor: MouseCursor) -> (r: u16)
    ensures
        r == spec_cursor_resource(cursor),
{
    match cursor {
        MouseCursor::Arrow | MouseCursor::Default => IDC_ARROW,
        MouseCursor::Hand => IDC_HAND,
        MouseCursor::Crosshair => IDC_CROSS,
        MouseCursor::Text | MouseCursor::VerticalText => IDC_IBEAM,
        MouseCursor::NotAllowed | MouseCursor::NoDrop => IDC_NO,
        MouseCursor::EResize => IDC_SIZEWE,
        MouseCursor::NResize => IDC_SIZENS,
        MouseCursor::WResize => IDC_SIZEWE,
        MouseCursor::SResize => IDC_SIZENS,
        MouseCursor::EwResize | MouseCursor::ColResize => IDC_SIZEWE,
        MouseCursor::NsResize | MouseCursor::RowResize => IDC_SIZENS,
        MouseCursor::Wait | MouseCursor::Progress => IDC_WAIT,
        MouseCursor::Help => IDC_HELP,
        _ => IDC_ARROW,
    }
}

/// How the cursor is held inside the window.
#[derive(Clone, Copy, PartialEq, Eq, Debug)]
pub enum CursorState {
    /// Free and visible.
    Normal,
    /// Hidden while over the window.
    Hide,
    /// Confined to the client area.
    Grab,
}

/// What the host must do to move from the current cursor state to a
/// requested one.
#[derive(Clone, Copy, PartialEq, Eq, Debug)]
pub enum CursorAction {
    /// Already in the requested state; nothing to do.
    Unchanged,
    /// Record the new state; no native call is needed.
    Adopt,
    /// Confine the cursor to the client area, then record the new state.
    ClipToClient,
    /// Release the confinement, then record the new state.
    ReleaseClip,
    /// A transition the backend does not implement.
    Unsupported,
}

/// The action for each (requested, current) pair.  Hiding a grabbed
/// cursor in one step is not implemented.
pub open spec fn spec_cursor_action(requested: CursorState, current: CursorState) -> CursorAction {
    match (requested, current) {
        (CursorState::Normal, CursorState::Normal) => CursorAction::Unchanged,
        (CursorState::Hide, CursorState::Hide) => CursorAction::Unchanged,
        (CursorState::Grab, CursorState::Grab) => CursorAction::Unchanged,
        (CursorState::Hide, CursorState::Normal) => CursorAction::Adopt,
        (CursorState::Normal, CursorState::Hide) => CursorAction::Adopt,
        (CursorState::Grab, CursorState::Normal) => CursorAction::ClipToClient,
        (CursorState::Grab, CursorState::Hide) => CursorAction::ClipToClient,
        (CursorState::Normal, CursorState::Grab) => CursorAction::ReleaseClip,
        (CursorState::Hide, CursorState::Grab) => CursorAction::Unsupported,
    }
}

/// See `spec_cursor_action`.
pub fn cursor_action(requested: CursorState, current: CursorState) -> (r: CursorAction)
    ensures
        r == spec_cursor_action(requested, current),
{
    match (requested, current) {
        (CursorState::Normal, CursorState::Normal) => CursorAction::Unchanged,
        (CursorState::Hide, CursorState::Hide) => CursorAction::Unchanged,
        (CursorState::Grab, CursorState::Grab) => CursorAction::Unchanged,
        (CursorState::Hide, CursorState::Normal) => CursorAction::Adopt,
        (CursorState::Normal, CursorState::Hide) => CursorAction::Adopt,
        (CursorState::Grab, CursorState::Normal) => CursorAction::ClipToClient,
        (CursorState::Grab, CursorState::Hide) => CursorAction::ClipToClient,
        (CursorState::Normal, CursorState::Grab) => CursorAction::ReleaseClip,
        (CursorState::Hide, CursorState::Grab) => CursorAction::Unsupported,
    }
}

} // verus!
