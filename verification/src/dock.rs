//! Where the editor's docks stand, and the decisions the dock chrome makes:
//! which buttons a dock header shows, what the menu does to a dock, and how a
//! floating editor window reacts to what happens in it.
use vstd::prelude::*;

verus! {

/// Where a dock is shown.
#[derive(Clone, Copy, PartialEq, Eq, Debug, Structural)]
pub enum DockPosition {
    Left,
    Right,
    Floating,
    Hidden,
}

/// What happens in a floating editor window, as the window reports it.
#[derive(Clone, PartialEq, Eq, Debug)]
pub enum EditorEvent {
    Change { file: String, content: String },
    Save,
    DockLeft,
    DockRight,
    Close,
    SelectFile(String),
}

/// What the main window does about one event of a floating editor window.
#[derive(Clone, Copy, PartialEq, Eq, Debug, Structural)]
pub struct WindowReply {
    /// Run the dock's save handler.
    pub save: bool,
    /// Run the dock's close handler.
    pub close: bool,
    /// Stop listening: the window is gone.
    pub stop: bool,
}

/// The effect of one window event on the dock position and the reply.
pub open spec fn window_event_spec(event: EditorEvent, pos: DockPosition) -> (DockPosition, WindowReply) {
    match event {
        EditorEvent::Save => (pos, WindowReply { save: true, close: false, stop: false }),
        EditorEvent::DockLeft => (DockPosition::Left, WindowReply { save: false, close: false, stop: true }),
        EditorEvent::DockRight => (DockPosition::Right, WindowReply { save: false, close: false, stop: true }),
        EditorEvent::Close => (pos, WindowReply { save: false, close: true, stop: true }),
        _ => (pos, WindowReply { save: false, close: false, stop: false }),
    }
}

/// Handles one event of a floating editor window: a save is passed on, docking
/// moves the dock and ends the window, closing ends it too; edits and tab
/// changes need nothing from the main window.
pub fn handle_window_event(event: &EditorEvent, pos: &mut DockPosition) -> (r: WindowReply)
    ensures
        (*final(pos), r) == window_event_spec(*event, *old(pos)),
{
    match event {
        EditorEvent::Save => WindowReply { save: true, close: false, stop: false },
        EditorEvent::DockLeft => {
            *pos = DockPosition::Left;
            WindowReply { save: false, close: false, stop: true }
        },
        EditorEvent::DockRight => {
            *pos = DockPosition::Right;
            WindowReply { save: false, close: false, stop: true }
        },
        EditorEvent::Close => WindowReply { save: false, close: true, stop: true },
        _ => WindowReply { save: false, close: false, stop: false },
    }
}

/// The dock position once a floating window has gone: a dock that is still
/// floating is hidden, any other keeps its place.
pub open spec fn after_window_closed_spec(pos: DockPosition) -> DockPosition {
    if pos == DockPosition::Floating {
        DockPosition::Hidden
    } else {
        pos
    }
}

/// The dock position once a floating window has gone.
pub fn after_window_closed(pos: DockPosition) -> (r: DockPosition)
    ensures
        r == after_window_closed_spec(pos),
{
    if pos == DockPosition::Floating {
        DockPosition::Hidden
    } else {
        pos
    }
}

/// When a window's events stop, the dock is never left floating without a
/// window: it is docked where the window asked, or hidden.
pub proof fn lemma_window_end_never_floats(event: EditorEvent, pos: DockPosition)
    requires
        window_event_spec(event, pos).1.stop,
    ensures
        after_window_closed_spec(window_event_spec(event, pos).0) != DockPosition::Floating,
        event is DockLeft ==> after_window_closed_spec(window_event_spec(event, pos).0)
            == DockPosition::Left,
        event is DockRight ==> after_window_closed_spec(window_event_spec(event, pos).0)
            == DockPosition::Right,
{
}

/// What the main window does when a dock's position changes.
#[derive(Clone, Copy, PartialEq, Eq, Debug, Structural)]
pub enum WindowEffect {
    /// Nothing: this copy of the dock already lives in its own window.
    Skip,
    /// Open a native window for the floating dock.
    Open,
    /// The native window is already open.
    Keep,
    /// Close the native window, if there is one.
    Close,
}

/// The native-window decision for a dock at `pos`.
pub fn window_effect(is_sub_window: bool, pos: DockPosition, window_open: bool) -> (r: WindowEffect)
    ensures
        r == (if is_sub_window {
            WindowEffect::Skip
        } else if pos == DockPosition::Floating {
            if window_open {
                WindowEffect::Keep
            } else {
                WindowEffect::Open
            }
        } else {
            WindowEffect::Close
        }),
{
    if is_sub_window {
        WindowEffect::Skip
    } else if pos == DockPosition::Floating {
        if window_open {
            WindowEffect::Keep
        } else {
            WindowEffect::Open
        }
    } else {
        WindowEffect::Close
    }
}

/// How a dock is drawn in the window that asks.
#[derive(Clone, Copy, PartialEq, Eq, Debug, Structural)]
pub enum DockRender {
    Nothing,
    LeftPanel,
    RightPanel,
    FloatingPanel,
}

/// A hidden dock draws nothing; a floating one is drawn only inside its own
/// window; a docked one is drawn at its side.
pub fn dock_render(pos: DockPosition, is_sub_window: bool) -> (r: DockRender)
    ensures
        r == (match pos {
            DockPosition::Left => DockRender::LeftPanel,
            DockPosition::Right => DockRender::RightPanel,
            DockPosition::Floating => if is_sub_window {
                DockRender::FloatingPanel
            } else {
                DockRender::Nothing
            },
            DockPosition::Hidden => DockRender::Nothing,
        }),
{
    match pos {
        DockPosition::Left => DockRender::LeftPanel,
        DockPosition::Right => DockRender::RightPanel,
        DockPosition::Floating => if is_sub_window {
            DockRender::FloatingPanel
        } else {
            DockRender::Nothing
        },
        DockPosition::Hidden => DockRender::Nothing,
    }
}

/// The buttons of a dock's header.
#[derive(Clone, Copy, PartialEq, Eq, Debug, Structural)]
pub struct HeaderButtons {
    pub save: bool,
    pub dock_left: bool,
    pub dock_right: bool,
    pub float: bool,
    pub close: bool,
}

/// Save is always there; a dock inside a native window has no placement
/// buttons; otherwise each placement button shows where the dock is not.
pub fn header_buttons(is_native_window: bool, pos: DockPosition) -> (r: HeaderButtons)
    ensures
        r.save,
        r.dock_left == (!is_native_window && pos != DockPosition::Left),
        r.dock_right == (!is_native_window && pos != DockPosition::Right),
        r.float == (!is_native_window && pos != DockPosition::Floating),
        r.close == !is_native_window,
{
    HeaderButtons {
        save: true,
        dock_left: !is_native_window && pos != DockPosition::Left,
        dock_right: !is_native_window && pos != DockPosition::Right,
        float: !is_native_window && pos != DockPosition::Floating,
        close: !is_native_window,
    }
}

/// The Docks menu: a hidden dock opens at `open_at`, a shown one hides.
pub fn toggle_dock(pos: DockPosition, open_at: DockPosition) -> (r: DockPosition)
    ensures
        r == (if pos == DockPosition::Hidden { open_at } else { DockPosition::Hidden }),
{
    if pos == DockPosition::Hidden {
        open_at
    } else {
        DockPosition::Hidden
    }
}

/// Choosing a dock's menu entry twice leaves it as it was when it was hidden,
/// and hidden when it was shown.
pub proof fn lemma_toggle_twice(pos: DockPosition, open_at: DockPosition)
    requires
        open_at != DockPosition::Hidden,
    ensures
        ({
            let once = if pos == DockPosition::Hidden { open_at } else { DockPosition::Hidden };
            let twice = if once == DockPosition::Hidden { open_at } else { DockPosition::Hidden };
            &&& once != pos
            &&& (pos == DockPosition::Hidden ==> twice == DockPosition::Hidden)
            &&& (pos != DockPosition::Hidden ==> twice == open_at)
        }),
{
}

/// What a Tools menu entry does to its dock.
#[derive(Clone, Copy, PartialEq, Eq, Debug, Structural)]
pub enum ToolDockAction {
    /// Open the dock at this position, closing the docks that share its side.
    OpenExclusive(DockPosition),
    Hide,
}

/// A hidden tool dock opens alone at `open_at`; a shown one hides.
pub fn tool_dock_action(pos: DockPosition, open_at: DockPosition) -> (r: ToolDockAction)
    ensures
        r == (if pos == DockPosition::Hidden {
            ToolDockAction::OpenExclusive(open_at)
        } else {
            ToolDockAction::Hide
        }),
{
    if pos == DockPosition::Hidden {
        ToolDockAction::OpenExclusive(open_at)
    } else {
        ToolDockAction::Hide
    }
}

/// The Docks menu label of a dock: its name, a space, and a check mark when
/// the dock is shown.
pub open spec fn dock_menu_label_spec(name: Seq<char>, pos: DockPosition) -> Seq<char> {
    name + " "@ + (if pos != DockPosition::Hidden { "\u{2713}"@ } else { ""@ })
}

/// The Docks menu label of a dock.
pub fn dock_menu_label(name: &str, pos: DockPosition) -> (r: String)
    ensures
        r@ == dock_menu_label_spec(name@, pos),
{
    let mut r = String::from_str(name);
    r.append(" ");
    if pos != DockPosition::Hidden {
        r.append("\u{2713}");
    } else {
        r.append("");
    }
    r
}

/// What a menu entry does when clicked, and which shortcut it binds: a
/// disabled entry does nothing and binds none.
pub fn menu_item_binding(disabled: bool, shortcut: Option<String>) -> (r: (bool, Option<String>))
    ensures
        r.0 == !disabled,
        r.1 == (if disabled { None } else { shortcut }),
{
    if disabled {
        (false, None)
    } else {
        (true, shortcut)
    }
}

} // verus!
