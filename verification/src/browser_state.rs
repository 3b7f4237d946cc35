//! The events the browser hands to Godot through its queues, the routing of
//! the messages its render process sends, and the drag-and-drop state that
//! those events and Godot's drag callbacks update.

use vstd::prelude::*;
use crate::mime::eq_literal;
use crate::text::chars_of;

verus! {

/// A loading state event from the browser.
#[derive(Debug, Clone)]
pub enum LoadingStateEvent {
    /// Page started loading.
    Started { url: String },
    /// Page finished loading.
    Finished { url: String, http_status_code: i32 },
    /// Page load error.
    Error { url: String, error_code: i32, error_text: String },
}

/// Where the IME caret is, for placing the candidate window.
#[derive(Clone, Copy, Debug, PartialEq, Eq, Structural)]
pub struct ImeCompositionRange {
    /// Caret X position in view coordinates.
    pub caret_x: i32,
    /// Caret Y position in view coordinates.
    pub caret_y: i32,
    /// Caret height in pixels.
    pub caret_height: i32,
}

/// A message the page wrote to the console.
#[derive(Debug, Clone)]
pub struct ConsoleMessageEvent {
    pub level: u32,
    pub message: String,
    pub source: String,
    pub line: i32,
}

/// What a drag carries.
#[derive(Debug, Clone)]
pub struct DragDataInfo {
    pub is_link: bool,
    pub is_file: bool,
    pub is_fragment: bool,
    pub link_url: String,
    pub link_title: String,
    pub fragment_text: String,
    pub fragment_html: String,
    pub file_names: Vec<String>,
}

/// A drag-and-drop event from the browser.
#[derive(Debug, Clone)]
pub enum DragEvent {
    /// The page started dragging something out of the browser.
    Started { drag_data: DragDataInfo, x: i32, y: i32, allowed_ops: u32 },
    /// The operation the browser would perform on a drop changed.
    UpdateCursor { operation: u32 },
    /// Something was dragged into the browser.
    Entered { drag_data: DragDataInfo, mask: u32 },
}

/// The drag operation values shared with CEF's `cef_drag_operations_mask_t`.
pub const DRAG_OPERATION_NONE: i32 = 0;
pub const DRAG_OPERATION_COPY: i32 = 1;
pub const DRAG_OPERATION_LINK: i32 = 2;
pub const DRAG_OPERATION_MOVE: i32 = 16;
pub const DRAG_OPERATION_EVERY: i32 = 0x7fff_ffff;

/// Whether a drag is in progress over or out of the browser.
#[derive(Clone, Copy, Debug, Default, PartialEq, Eq, Structural)]
pub struct DragState {
    /// Something is being dragged over the browser.
    pub is_drag_over: bool,
    /// The browser is the source of a drag in progress.
    pub is_dragging_from_browser: bool,
    /// The operations the current drag allows.
    pub allowed_ops: u32,
}

impl DragState {
    /// A drag from Godot entered the browser with the given operations.
    pub fn drag_enter(&mut self, allowed_ops: i32)
        ensures
            final(self).is_drag_over,
            final(self).allowed_ops == allowed_ops as u32,
            final(self).is_dragging_from_browser == old(self).is_dragging_from_browser,
    {
        self.is_drag_over = true;
        self.allowed_ops = allowed_ops as u32;
    }

    /// The drag left the browser.
    pub fn drag_leave(&mut self)
        ensures
            !final(self).is_drag_over,
            final(self).allowed_ops == old(self).allowed_ops,
            final(self).is_dragging_from_browser == old(self).is_dragging_from_browser,
    {
        self.is_drag_over = false;
    }

    /// The drag was dropped on the browser.
    pub fn drag_drop(&mut self)
        ensures
            !final(self).is_drag_over,
            final(self).allowed_ops == old(self).allowed_ops,
            final(self).is_dragging_from_browser == old(self).is_dragging_from_browser,
    {
        self.is_drag_over = false;
    }

    /// A drag that the browser started has ended.
    pub fn drag_source_ended(&mut self)
        ensures
            !final(self).is_dragging_from_browser,
            final(self).allowed_ops == old(self).allowed_ops,
            final(self).is_drag_over == old(self).is_drag_over,
    {
        self.is_dragging_from_browser = false;
    }

    /// Applies what a browser drag event says about the drag state: a drag
    /// started from the page, with its operations, or something entered it.
    pub fn apply(&mut self, event: &DragEvent)
        ensures
            match *event {
                DragEvent::Started { allowed_ops, .. } => final(self).is_dragging_from_browser
                    && final(self).allowed_ops == allowed_ops && final(self).is_drag_over
                    == old(self).is_drag_over,
                DragEvent::UpdateCursor { .. } => *final(self) == *old(self),
                DragEvent::Entered { .. } => final(self).is_drag_over
                    && final(self).allowed_ops == old(self).allowed_ops
                    && final(self).is_dragging_from_browser == old(self).is_dragging_from_browser,
            },
    {
        match event {
            DragEvent::Started { allowed_ops, .. } => {
                self.is_dragging_from_browser = true;
                self.allowed_ops = *allowed_ops;
            },
            DragEvent::UpdateCursor { .. } => {},
            DragEvent::Entered { .. } => {
                self.is_drag_over = true;
            },
        }
    }
}

/// The routes of the process messages the render process sends.
#[derive(Clone, Copy, Debug, PartialEq, Eq, Structural)]
pub enum IpcRoute {
    /// `ipcRendererToGodot`: a message for Godot's `ipc_message` signal.
    RendererToGodot,
    /// `triggerIme`: an editable element gained or lost focus.
    TriggerIme,
    /// `imeCaretPosition`: where the caret is while composing.
    ImeCaretPosition,
    /// Anything else, which is ignored.
    Unknown,
}

pub open spec fn ipc_route_of(name: Seq<char>) -> IpcRoute {
    if name == "ipcRendererToGodot"@ {
        IpcRoute::RendererToGodot
    } else if name == "triggerIme"@ {
        IpcRoute::TriggerIme
    } else if name == "imeCaretPosition"@ {
        IpcRoute::ImeCaretPosition
    } else {
        IpcRoute::Unknown
    }
}

/// The route of a process message, by its name.
pub fn ipc_route(name: &str) -> (r: IpcRoute)
    ensures
        r == ipc_route_of(name@),
{
    let n = chars_of(name);
    if eq_literal(&n, "ipcRendererToGodot") {
        IpcRoute::RendererToGodot
    } else if eq_literal(&n, "triggerIme") {
        IpcRoute::TriggerIme
    } else if eq_literal(&n, "imeCaretPosition") {
        IpcRoute::ImeCaretPosition
    } else {
        IpcRoute::Unknown
    }
}

/// What to do with the IME after the focus requests the render process
/// sent since the last frame.
#[derive(Clone, Copy, Debug, PartialEq, Eq, Structural)]
pub enum ImeChange {
    /// An editable element gained focus: start composing through the proxy.
    Activate,
    /// The editable element lost focus: stop.
    Deactivate,
    /// Nothing changes.
    Keep,
}

/// The change the last of `requests` calls for, given whether the IME is
/// active: only the latest request counts, and only where it changes
/// something.
pub open spec fn ime_change_of(active: bool, requests: Seq<bool>) -> ImeChange {
    if requests.len() == 0 {
        ImeChange::Keep
    } else if requests.last() && !active {
        ImeChange::Activate
    } else if !requests.last() && active {
        ImeChange::Deactivate
    } else {
        ImeChange::Keep
    }
}

/// The IME state of a browser view.
#[derive(Clone, Copy, Debug, Default, PartialEq, Eq, Structural)]
pub struct ImeState {
    /// Whether text input goes through the IME proxy.
    pub active: bool,
    /// Where the composition caret's bottom is, in view coordinates.
    pub position_x: i32,
    pub position_y: i32,
}

impl ImeState {
    /// The change called for by the queued focus requests, oldest first.
    pub fn change_for(&self, requests: &[bool]) -> (r: ImeChange)
        ensures
            r == ime_change_of(self.active, requests@),
    {
        if requests.len() == 0 {
            return ImeChange::Keep;
        }
        let enable = requests[requests.len() - 1];
        if enable && !self.active {
            ImeChange::Activate
        } else if !enable && self.active {
            ImeChange::Deactivate
        } else {
            ImeChange::Keep
        }
    }

    /// Applies a change: activation and deactivation set the flag.
    pub fn apply(&mut self, change: ImeChange)
        ensures
            final(self).active == match change {
                ImeChange::Activate => true,
                ImeChange::Deactivate => false,
                ImeChange::Keep => old(self).active,
            },
            final(self).position_x == old(self).position_x,
            final(self).position_y == old(self).position_y,
    {
        match change {
            ImeChange::Activate => {
                self.active = true;
            },
            ImeChange::Deactivate => {
                self.active = false;
            },
            ImeChange::Keep => {},
        }
    }

    /// Takes the caret reported by the page while the IME is active: the
    /// candidate window goes below it. Returns whether the IME is active,
    /// that is, whether the caret was taken and the window must be moved;
    /// while it is inactive the report is ignored.
    pub fn on_composition_range(&mut self, range: ImeCompositionRange) -> (r: bool)
        requires
            old(self).active ==> i32::MIN <= range.caret_y + range.caret_height <= i32::MAX,
        ensures
            r == old(self).active,
            final(self).active == old(self).active,
            r ==> final(self).position_x == range.caret_x && final(self).position_y
                == range.caret_y + range.caret_height,
            !r ==> *final(self) == *old(self),
    {
        if !self.active {
            return false;
        }
        self.position_x = range.caret_x;
        self.position_y = range.caret_y + range.caret_height;
        true
    }
}

/// The IME selection as CEF takes it: negative ends count as zero.
pub fn ime_selection(start: i32, end: i32) -> (r: (u32, u32))
    ensures
        r.0 == (if start > 0 { start as u32 } else { 0 }),
        r.1 == (if end > 0 { end as u32 } else { 0 }),
{
    let s: u32 = if start > 0 { start as u32 } else { 0 };
    let e: u32 = if end > 0 { end as u32 } else { 0 };
    (s, e)
}

/// The range the composition underline covers: the whole composed text,
/// counted in characters.
pub fn composition_underline(text: &str) -> (r: (u32, u32))
    ensures
        r.0 == 0,
        r.1 == (text@.len() as u32),
{
    let n = chars_of(text).len();
    (0, n as u32)
}

} // verus!
