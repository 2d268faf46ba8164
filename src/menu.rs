//! Menu items of the tray's context menu, and the flat native popup menu
//! built from them.
use vstd::prelude::*;

verus! {

/// Menu item kinds.
#[derive(Clone, Copy, Debug, PartialEq, Eq, Structural)]
pub enum MenuItemKind {
    /// Normal clickable item.
    Normal,
    /// Separator line.
    Separator,
    /// Checkbox item.
    Checkbox { checked: bool },
    /// Radio item.
    Radio { selected: bool },
}

/// An item of the tray's context menu.
pub struct MenuItem {
    /// Identifier reported when the item is selected.
    pub id: String,
    /// Display label.
    pub label: String,
    /// Item kind.
    pub kind: MenuItemKind,
    /// Whether the item can be selected.
    pub enabled: bool,
    /// Name of the host action dispatched when the item is selected.
    pub action: Option<String>,
    /// Nested items, for an item that opens a submenu.
    pub submenu: Option<Vec<MenuItem>>,
}

impl MenuItem {
    /// Creates a normal, enabled item.
    pub fn new(id: &str, label: &str) -> (r: Self)
        ensures
            r.id@ == id@,
            r.label@ == label@,
            r.kind == MenuItemKind::Normal,
            r.enabled,
            r.action is None,
            r.submenu is None,
    {
        Self::with_kind(id, label, MenuItemKind::Normal)
    }

    fn with_kind(id: &str, label: &str, kind: MenuItemKind) -> (r: Self)
        ensures
            r.id@ == id@,
            r.label@ == label@,
            r.kind == kind,
            r.enabled,
            r.action is None,
            r.submenu is None,
    {
        MenuItem {
            id: id.to_string(),
            label: label.to_string(),
            kind,
            enabled: true,
            action: None,
            submenu: None,
        }
    }

    /// Creates a separator.
    pub fn separator() -> (r: Self)
        ensures
            r.id@ == Seq::<char>::empty(),
            r.label@ == Seq::<char>::empty(),
            r.kind == MenuItemKind::Separator,
            r.enabled,
            r.action is None,
            r.submenu is None,
    {
        MenuItem {
            id: String::new(),
            label: String::new(),
            kind: MenuItemKind::Separator,
            enabled: true,
            action: None,
            submenu: None,
        }
    }

    /// Creates a checkbox item.
    pub fn checkbox(id: &str, label: &str, checked: bool) -> (r: Self)
        ensures
            r.id@ == id@,
            r.label@ == label@,
            r.kind == (MenuItemKind::Checkbox { checked }),
            r.enabled,
            r.action is None,
            r.submenu is None,
    {
        Self::with_kind(id, label, MenuItemKind::Checkbox { checked })
    }

    /// Creates a radio item.
    pub fn radio(id: &str, label: &str, selected: bool) -> (r: Self)
        ensures
            r.id@ == id@,
            r.label@ == label@,
            r.kind == (MenuItemKind::Radio { selected }),
            r.enabled,
            r.action is None,
            r.submenu is None,
    {
        Self::with_kind(id, label, MenuItemKind::Radio { selected })
    }

    /// Sets whether the item can be selected.
    pub fn enabled(self, enabled: bool) -> (r: Self)
        ensures
            r == (MenuItem { enabled, ..self }),
    {
        MenuItem { enabled, ..self }
    }

    /// Sets the name of the host action the item dispatches.
    pub fn action(self, action: &str) -> (r: Self)
        ensures
            r.action matches Some(a) && a@ == action@,
            r.id == self.id,
            r.label == self.label,
            r.kind == self.kind,
            r.enabled == self.enabled,
            r.submenu == self.submenu,
    {
        MenuItem { action: Some(action.to_string()), ..self }
    }

    /// Gives the item nested items.
    pub fn submenu(self, submenu: Vec<MenuItem>) -> (r: Self)
        ensures
            r == (MenuItem { submenu: Some(submenu), ..self }),
    {
        MenuItem { submenu: Some(submenu), ..self }
    }
}

} // verus!
