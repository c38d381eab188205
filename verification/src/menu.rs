//! The context menu of the widget-tree scene view. The host builds the popup
//! and its items and routes UI messages; this module decides, per message,
//! which editor operation to request (delete, copy, paste as child) and keeps
//! track of the widget the popup was opened over.

use vstd::prelude::*;
use crate::handle::NodeHandle;

verus! {

/// The widgets currently selected in the widget-tree view, in selection
/// order. `widgets[0]` is the primary selected widget.
#[derive(Clone, Debug)]
pub struct UiSelection {
    pub widgets: Vec<NodeHandle>,
}

/// The editor's current selection, as far as this menu reads it: either a
/// widget selection of the scene view, or a selection of some other kind
/// (scene nodes, audio buses, ...), which the menu leaves alone.
#[derive(Clone, Debug)]
pub enum EditorSelection {
    Ui(UiSelection),
    Other,
}

/// The UI messages the menu distinguishes. A click carries the handle of the
/// clicked menu item; a cursor placement carries the handle of the popup that
/// was placed and the widget under the cursor it was opened over.
#[derive(Clone, Copy, Debug, PartialEq, Eq, Structural)]
pub enum MenuEvent {
    MenuItemClick { destination: NodeHandle },
    CursorPlacement { destination: NodeHandle, target: NodeHandle },
    Other,
}

/// What the menu asks the host editor to do in response to a message.
#[derive(Clone, Copy, Debug, PartialEq, Eq, Structural)]
pub enum MenuAction {
    /// Send the command that deletes the current widget selection.
    DeleteSelection,
    /// Fill the scene clipboard from the current widget selection.
    CopySelection,
    /// Send the command that pastes the clipboard under the given widget.
    PasteAsChild(NodeHandle),
    /// Enable or disable the "paste" menu item.
    SetPasteEnabled(bool),
}

/// The menu's own state: the handles of the popup and of its fixed items, and
/// the widget the popup was last opened over.
#[derive(Clone, Copy, Debug, PartialEq, Eq, Structural)]
pub struct WidgetContextMenu {
    pub menu: NodeHandle,
    pub delete_selection: NodeHandle,
    pub copy_selection: NodeHandle,
    pub paste: NodeHandle,
    pub placement_target: NodeHandle,
}

/// The operation a menu in state `m` requests on `event`. Nothing is
/// requested unless the active scene is a UI scene. A click is matched
/// against the fixed items in order (delete, copy, paste); the selection
/// must be a widget selection for any of them to act, pasting also needs a
/// primary selected widget and a non-empty clipboard. Placing the popup
/// refreshes whether the "paste" item is enabled.
pub open spec fn menu_action(
    m: WidgetContextMenu,
    event: MenuEvent,
    selection: EditorSelection,
    is_ui_scene: bool,
    clipboard_empty: bool,
) -> Option<MenuAction> {
    if !is_ui_scene {
        None
    } else {
        match event {
            MenuEvent::MenuItemClick { destination } => {
                if destination == m.delete_selection {
                    if selection is Ui {
                        Some(MenuAction::DeleteSelection)
                    } else {
                        None
                    }
                } else if destination == m.copy_selection {
                    if selection is Ui {
                        Some(MenuAction::CopySelection)
                    } else {
                        None
                    }
                } else if destination == m.paste {
                    match selection {
                        EditorSelection::Ui(sel) => {
                            if sel.widgets@.len() > 0 && !clipboard_empty {
                                Some(MenuAction::PasteAsChild(sel.widgets@[0]))
                            } else {
                                None
                            }
                        },
                        EditorSelection::Other => None,
                    }
                } else {
                    None
                }
            },
            MenuEvent::CursorPlacement { destination, target: _ } => {
                if destination == m.menu {
                    Some(MenuAction::SetPasteEnabled(!clipboard_empty))
                } else {
                    None
                }
            },
            MenuEvent::Other => None,
        }
    }
}

/// The menu's state after `event`: only placing the popup over a widget in a
/// UI scene changes anything, and then only the remembered placement target.
pub open spec fn menu_after(
    m: WidgetContextMenu,
    event: MenuEvent,
    is_ui_scene: bool,
) -> WidgetContextMenu {
    match event {
        MenuEvent::CursorPlacement { destination, target } => {
            if is_ui_scene && destination == m.menu {
                WidgetContextMenu { placement_target: target, ..m }
            } else {
                m
            }
        },
        _ => m,
    }
}

impl WidgetContextMenu {
    /// A menu over the popup and item widgets the host built. The popup has
    /// not been opened yet, so it was placed over nothing.
    pub fn new(
        menu: NodeHandle,
        delete_selection: NodeHandle,
        copy_selection: NodeHandle,
        paste: NodeHandle,
    ) -> (r: WidgetContextMenu)
        ensures
            r == (WidgetContextMenu {
                menu,
                delete_selection,
                copy_selection,
                paste,
                placement_target: NodeHandle::none_spec(),
            }),
    {
        WidgetContextMenu {
            menu,
            delete_selection,
            copy_selection,
            paste,
            placement_target: NodeHandle::none(),
        }
    }

    /// The handle of the popup itself, for the scene view to open.
    pub fn menu(&self) -> (r: NodeHandle)
        ensures
            r == self.menu,
    {
        self.menu
    }

    /// Decide on one routed UI message: update the remembered placement
    /// target and say which editor operation, if any, the host should carry
    /// out. `is_ui_scene` says whether the active scene is a UI scene;
    /// `clipboard_empty` whether the scene clipboard holds nothing.
    pub fn handle_ui_message(
        &mut self,
        event: &MenuEvent,
        selection: &EditorSelection,
        is_ui_scene: bool,
        clipboard_empty: bool,
    ) -> (r: Option<MenuAction>)
        ensures
            r == menu_action(*old(self), *event, *selection, is_ui_scene, clipboard_empty),
            *final(self) == menu_after(*old(self), *event, is_ui_scene),
    {
        if !is_ui_scene {
            return None;
        }
        match event {
            MenuEvent::MenuItemClick { destination } => {
                if *destination == self.delete_selection {
                    match selection {
                        EditorSelection::Ui(_) => Some(MenuAction::DeleteSelection),
                        EditorSelection::Other => None,
                    }
                } else if *destination == self.copy_selection {
                    match selection {
                        EditorSelection::Ui(_) => Some(MenuAction::CopySelection),
                        EditorSelection::Other => None,
                    }
                } else if *destination == self.paste {
                    match selection {
                        EditorSelection::Ui(sel) => {
                            if sel.widgets.len() > 0 && !clipboard_empty {
                                Some(MenuAction::PasteAsChild(sel.widgets[0]))
                            } else {
                                None
                            }
                        },
                        EditorSelection::Other => None,
                    }
                } else {
                    None
                }
            },
            MenuEvent::CursorPlacement { destination, target } => {
                if *destination == self.menu {
                    self.placement_target = *target;
                    Some(MenuAction::SetPasteEnabled(!clipboard_empty))
                } else {
                    None
                }
            },
            MenuEvent::Other => None,
        }
    }
}

/// Pasting is never requested from an empty clipboard, and what is pasted
/// goes under the primary selected widget.
pub proof fn lemma_paste_needs_content(
    m: WidgetContextMenu,
    event: MenuEvent,
    selection: EditorSelection,
    is_ui_scene: bool,
    clipboard_empty: bool,
)
    ensures
        forall|t: NodeHandle|
            menu_action(m, event, selection, is_ui_scene, clipboard_empty)
                == Some(MenuAction::PasteAsChild(t))
            ==> (!clipboard_empty && (selection matches EditorSelection::Ui(sel)
                && sel.widgets@.len() > 0 && t == sel.widgets@[0])),
{
}

/// A menu of a scene that is not a UI scene is inert: it requests nothing
/// and its state does not change.
pub proof fn lemma_non_ui_scene_is_inert(
    m: WidgetContextMenu,
    event: MenuEvent,
    selection: EditorSelection,
    clipboard_empty: bool,
)
    ensures
        menu_action(m, event, selection, false, clipboard_empty) is None,
        menu_after(m, event, false) == m,
{
}

} // verus!
