//! Mouse cursors: the shapes CEF asks for and the Godot shapes shown for
//! them.

use vstd::prelude::*;

verus! {

/// The cursor shapes the browser distinguishes.
#[derive(Clone, Copy, Debug, PartialEq, Eq, Default, Structural)]
pub enum CursorType {
    #[default]
    Arrow,
    IBeam,
    Hand,
    Cross,
    Wait,
    Help,
    Move,
    ResizeNS,
    ResizeEW,
    ResizeNESW,
    ResizeNWSE,
    NotAllowed,
    Progress,
}

/// Godot's `Control.CursorShape`.
#[derive(Clone, Copy, Debug, PartialEq, Eq, Structural)]
pub enum CursorShape {
    Arrow,
    Ibeam,
    PointingHand,
    Cross,
    Wait,
    Busy,
    Drag,
    CanDrop,
    Forbidden,
    Vsize,
    Hsize,
    Bdiagsize,
    Fdiagsize,
    Move,
    Vsplit,
    Hsplit,
    Help,
}

/// The ordinal Godot gives a cursor shape.
pub open spec fn cursor_shape_ord(s: CursorShape) -> i32 {
    match s {
        CursorShape::Arrow => 0,
        CursorShape::Ibeam => 1,
        CursorShape::PointingHand => 2,
        CursorShape::Cross => 3,
        CursorShape::Wait => 4,
        CursorShape::Busy => 5,
        CursorShape::Drag => 6,
        CursorShape::CanDrop => 7,
        CursorShape::Forbidden => 8,
        CursorShape::Vsize => 9,
        CursorShape::Hsize => 10,
        CursorShape::Bdiagsize => 11,
        CursorShape::Fdiagsize => 12,
        CursorShape::Move => 13,
        CursorShape::Vsplit => 14,
        CursorShape::Hsplit => 15,
        CursorShape::Help => 16,
    }
}

impl CursorShape {
    /// The ordinal of the shape in Godot's `Control.CursorShape`.
    pub fn ord(&self) -> (r: i32)
        ensures
            r == cursor_shape_ord(*self),
    {
        match self {
            CursorShape::Arrow => 0,
            CursorShape::Ibeam => 1,
            CursorShape::PointingHand => 2,
            CursorShape::Cross => 3,
            CursorShape::Wait => 4,
            CursorShape::Busy => 5,
            CursorShape::Drag => 6,
            CursorShape::CanDrop => 7,
            CursorShape::Forbidden => 8,
            CursorShape::Vsize => 9,
            CursorShape::Hsize => 10,
            CursorShape::Bdiagsize => 11,
            CursorShape::Fdiagsize => 12,
            CursorShape::Move => 13,
            CursorShape::Vsplit => 14,
            CursorShape::Hsplit => 15,
            CursorShape::Help => 16,
        }
    }
}

/// The cursor shape for a value of CEF's `cef_cursor_type_t`: each resize
/// direction maps onto the axis it resizes, and the kinds the browser does
/// not distinguish (panning, zoom, drag-and-drop, custom...) show an arrow.
pub open spec fn cursor_type_of_cef_spec(code: u32) -> CursorType {
    if code == 0 {
        CursorType::Arrow
    } else if code == 1 {
        CursorType::Cross
    } else if code == 2 {
        CursorType::Hand
    } else if code == 3 {
        CursorType::IBeam
    } else if code == 4 {
        CursorType::Wait
    } else if code == 5 {
        CursorType::Help
    } else if code == 6 || code == 13 || code == 15 {
        CursorType::ResizeEW
    } else if code == 7 || code == 10 || code == 14 {
        CursorType::ResizeNS
    } else if code == 8 || code == 12 || code == 16 {
        CursorType::ResizeNESW
    } else if code == 9 || code == 11 || code == 17 {
        CursorType::ResizeNWSE
    } else if code == 29 {
        CursorType::Move
    } else if code == 34 {
        CursorType::Progress
    } else if code == 38 {
        CursorType::NotAllowed
    } else {
        CursorType::Arrow
    }
}

/// Converts a CEF cursor type (`cef_cursor_type_t`, by its value: pointer 0,
/// cross 1, hand 2, I-beam 3, wait 4, help 5, east/north/north-east/
/// north-west/south/south-east/south-west/west resize 6 to 13,
/// north-south 14, east-west 15, north-east-south-west 16,
/// north-west-south-east 17, move 29, progress 34, not-allowed 38).
pub fn cef_cursor_to_cursor_type(code: u32) -> (r: CursorType)
    ensures
        r == cursor_type_of_cef_spec(code),
{
    match code {
        0 => CursorType::Arrow,
        1 => CursorType::Cross,
        2 => CursorType::Hand,
        3 => CursorType::IBeam,
        4 => CursorType::Wait,
        5 => CursorType::Help,
        6 | 13 | 15 => CursorType::ResizeEW,
        7 | 10 | 14 => CursorType::ResizeNS,
        8 | 12 | 16 => CursorType::ResizeNESW,
        9 | 11 | 17 => CursorType::ResizeNWSE,
        29 => CursorType::Move,
        34 => CursorType::Progress,
        38 => CursorType::NotAllowed,
        _ => CursorType::Arrow,
    }
}

/// The Godot cursor shape shown for a browser cursor.
pub open spec fn shape_of(t: CursorType) -> CursorShape {
    match t {
        CursorType::Arrow => CursorShape::Arrow,
        CursorType::IBeam => CursorShape::Ibeam,
        CursorType::Hand => CursorShape::PointingHand,
        CursorType::Cross => CursorShape::Cross,
        CursorType::Wait => CursorShape::Wait,
        CursorType::Help => CursorShape::Help,
        CursorType::Move => CursorShape::Move,
        CursorType::ResizeNS => CursorShape::Vsize,
        CursorType::ResizeEW => CursorShape::Hsize,
        CursorType::ResizeNESW => CursorShape::Bdiagsize,
        CursorType::ResizeNWSE => CursorShape::Fdiagsize,
        CursorType::NotAllowed => CursorShape::Forbidden,
        CursorType::Progress => CursorShape::Busy,
    }
}

/// Converts a browser cursor type to the Godot cursor shape.
pub fn cursor_type_to_shape(cursor_type: CursorType) -> (r: CursorShape)
    ensures
        r == shape_of(cursor_type),
{
    match cursor_type {
        CursorType::Arrow => CursorShape::Arrow,
        CursorType::IBeam => CursorShape::Ibeam,
        CursorType::Hand => CursorShape::PointingHand,
        CursorType::Cross => CursorShape::Cross,
        CursorType::Wait => CursorShape::Wait,
        CursorType::Help => CursorShape::Help,
        CursorType::Move => CursorShape::Move,
        CursorType::ResizeNS => CursorShape::Vsize,
        CursorType::ResizeEW => CursorShape::Hsize,
        CursorType::ResizeNESW => CursorShape::Bdiagsize,
        CursorType::ResizeNWSE => CursorShape::Fdiagsize,
        CursorType::NotAllowed => CursorShape::Forbidden,
        CursorType::Progress => CursorShape::Busy,
    }
}

/// Distinct browser cursors show distinct Godot shapes.
pub proof fn lemma_cursor_shapes_distinct(a: CursorType, b: CursorType)
    requires
        a != b,
    ensures
        shape_of(a) != shape_of(b),
{
}

/// What a cursor tells the user, whatever a platform calls it.
pub enum CursorMeaning {
    /// The ordinary pointer.
    Pointer,
    /// Text can be selected or typed here.
    Text,
    /// A link: clicking follows it.
    Link,
    /// Precise selection (a crosshair).
    Precision,
    /// Busy; the user cannot interact.
    Wait,
    /// Busy, but the user can still interact.
    Progress,
    /// Help is available.
    Help,
    /// Something can be moved in any direction.
    Move,
    /// Resizing up and down.
    ResizeVertical,
    /// Resizing left and right.
    ResizeHorizontal,
    /// Resizing along the diagonal from bottom left to top right.
    ResizeRisingDiagonal,
    /// Resizing along the diagonal from top left to bottom right.
    ResizeFallingDiagonal,
    /// The action is not allowed.
    Forbidden,
}

/// What each of the browser's cursor types means, after CEF's
/// `cef_cursor_type_t`.
pub open spec fn browser_cursor_meaning(t: CursorType) -> CursorMeaning {
    match t {
        CursorType::Arrow => CursorMeaning::Pointer,
        CursorType::IBeam => CursorMeaning::Text,
        CursorType::Hand => CursorMeaning::Link,
        CursorType::Cross => CursorMeaning::Precision,
        CursorType::Wait => CursorMeaning::Wait,
        CursorType::Help => CursorMeaning::Help,
        CursorType::Move => CursorMeaning::Move,
        CursorType::ResizeNS => CursorMeaning::ResizeVertical,
        CursorType::ResizeEW => CursorMeaning::ResizeHorizontal,
        CursorType::ResizeNESW => CursorMeaning::ResizeRisingDiagonal,
        CursorType::ResizeNWSE => CursorMeaning::ResizeFallingDiagonal,
        CursorType::NotAllowed => CursorMeaning::Forbidden,
        CursorType::Progress => CursorMeaning::Progress,
    }
}

/// What each of Godot's cursor shapes means, after `Control.CursorShape`;
/// `None` for the drag-and-drop and splitter shapes, which have no browser
/// counterpart.
pub open spec fn godot_shape_meaning(s: CursorShape) -> Option<CursorMeaning> {
    match s {
        CursorShape::Arrow => Some(CursorMeaning::Pointer),
        CursorShape::Ibeam => Some(CursorMeaning::Text),
        CursorShape::PointingHand => Some(CursorMeaning::Link),
        CursorShape::Cross => Some(CursorMeaning::Precision),
        CursorShape::Wait => Some(CursorMeaning::Wait),
        CursorShape::Busy => Some(CursorMeaning::Progress),
        CursorShape::Drag => None,
        CursorShape::CanDrop => None,
        CursorShape::Forbidden => Some(CursorMeaning::Forbidden),
        CursorShape::Vsize => Some(CursorMeaning::ResizeVertical),
        CursorShape::Hsize => Some(CursorMeaning::ResizeHorizontal),
        CursorShape::Bdiagsize => Some(CursorMeaning::ResizeRisingDiagonal),
        CursorShape::Fdiagsize => Some(CursorMeaning::ResizeFallingDiagonal),
        CursorShape::Move => Some(CursorMeaning::Move),
        CursorShape::Vsplit => None,
        CursorShape::Hsplit => None,
        CursorShape::Help => Some(CursorMeaning::Help),
    }
}

/// Every browser cursor is shown as the Godot shape that means the same:
/// the text cursor as the I-beam, the crosshair as the cross, a link as the
/// pointing hand, and so on.
pub proof fn lemma_cursor_shape_keeps_meaning(t: CursorType)
    ensures
        godot_shape_meaning(shape_of(t)) == Some(browser_cursor_meaning(t)),
{
}

} // verus!
