//! The look of the mouse cursor.

use vstd::prelude::*;
use winit::window::CursorIcon;

verus! {

/// The look of the mouse cursor.
#[derive(Clone, Copy, Debug, PartialEq, Eq, Structural)]
pub enum MouseCursorType {
    Default,
    Pointer,
    Crosshair,
    Text,
    VerticalText,
    Move,
    Grab,
    Grabbing,
    Wait,
    Progress,
    Cell,
    Alias,
    Copy,
    NoDrop,
    NotAllowed,
    ColResize,
    RowResize,
    EwResize,
    NsResize,
    NeswResize,
    NwseResize,
    ZoomIn,
    ZoomOut,
}

/// An outside type: the window system's icon for the cursor.
#[verifier::external_type_specification]
#[verifier::external_body]
pub struct ExCursorIcon(CursorIcon);

/// What `CursorIcon::from_str` of `winit` makes of a name.
pub uninterp spec fn icon_named(name: Seq<char>) -> Option<CursorIcon>;

/// The name that the CSS standard has for the look.
pub open spec fn css_name(cursor: MouseCursorType) -> Seq<char> {
    match cursor {
        MouseCursorType::Default => "default"@,
        MouseCursorType::Pointer => "pointer"@,
        MouseCursorType::Crosshair => "crosshair"@,
        MouseCursorType::Text => "text"@,
        MouseCursorType::VerticalText => "vertical-text"@,
        MouseCursorType::Move => "move"@,
        MouseCursorType::Grab => "grab"@,
        MouseCursorType::Grabbing => "grabbing"@,
        MouseCursorType::Wait => "wait"@,
        MouseCursorType::Progress => "progress"@,
        MouseCursorType::Cell => "cell"@,
        MouseCursorType::Alias => "alias"@,
        MouseCursorType::Copy => "copy"@,
        MouseCursorType::NoDrop => "no-drop"@,
        MouseCursorType::NotAllowed => "not-allowed"@,
        MouseCursorType::ColResize => "col-resize"@,
        MouseCursorType::RowResize => "row-resize"@,
        MouseCursorType::EwResize => "ew-resize"@,
        MouseCursorType::NsResize => "ns-resize"@,
        MouseCursorType::NeswResize => "nesw-resize"@,
        MouseCursorType::NwseResize => "nwse-resize"@,
        MouseCursorType::ZoomIn => "zoom-in"@,
        MouseCursorType::ZoomOut => "zoom-out"@,
    }
}

/// Calls `CursorIcon::from_str` of `winit`. It knows the names of all looks, and
/// what it makes of a name depends on the name alone.
#[verifier::external_body]
fn parse_cursor_icon(name: &str) -> (icon: Option<CursorIcon>)
    ensures
        icon == icon_named(name@),
        (exists|cursor: MouseCursorType| name@ == #[trigger] css_name(cursor)) ==> icon is Some,
{
    name.parse::<CursorIcon>().ok()
}

/// The name that the CSS standard has for a look.
pub fn cursor_name(cursor: MouseCursorType) -> (name: &'static str)
    ensures
        name@ == css_name(cursor),
{
    match cursor {
        MouseCursorType::Default => "default",
        MouseCursorType::Pointer => "pointer",
        MouseCursorType::Crosshair => "crosshair",
        MouseCursorType::Text => "text",
        MouseCursorType::VerticalText => "vertical-text",
        MouseCursorType::Move => "move",
        MouseCursorType::Grab => "grab",
        MouseCursorType::Grabbing => "grabbing",
        MouseCursorType::Wait => "wait",
        MouseCursorType::Progress => "progress",
        MouseCursorType::Cell => "cell",
        MouseCursorType::Alias => "alias",
        MouseCursorType::Copy => "copy",
        MouseCursorType::NoDrop => "no-drop",
        MouseCursorType::NotAllowed => "not-allowed",
        MouseCursorType::ColResize => "col-resize",
        MouseCursorType::RowResize => "row-resize",
        MouseCursorType::EwResize => "ew-resize",
        MouseCursorType::NsResize => "ns-resize",
        MouseCursorType::NeswResize => "nesw-resize",
        MouseCursorType::NwseResize => "nwse-resize",
        MouseCursorType::ZoomIn => "zoom-in",
        MouseCursorType::ZoomOut => "zoom-out",
    }
}

/// The window system's icon for a look.
pub fn cursor_icon(cursor: MouseCursorType) -> (icon: CursorIcon)
    ensures
        icon_named(css_name(cursor)) == Some(icon),
{
    match parse_cursor_icon(cursor_name(cursor)) {
        Some(icon) => icon,
        None => {
            assert(false);
            vstd::pervasive::unreached()
        },
    }
}

} // verus!
