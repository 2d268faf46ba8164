//! The flat popup menu the Windows shell can show. Separators and single-level
//! items are kept; items that open a submenu are not supported there, and are
//! dropped and reported by position.
use crate::menu::{MenuItem, MenuItemKind};
use vstd::prelude::*;

verus! {

/// One entry of the native popup menu. `command` is the identifier the shell
/// reports when the entry is chosen: the item's position plus one, since zero
/// is reserved.
pub enum MenuEntry {
    Separator { command: usize },
    Text { command: usize, label: String, enabled: bool, checked: bool },
}

/// The popup menu to build, with the positions of the items left out of it.
pub struct NativeMenu {
    pub entries: Vec<MenuEntry>,
    pub unsupported: Vec<usize>,
}

/// Whether the native popup menu can show the item.
pub open spec fn is_supported(item: MenuItem) -> bool {
    item.submenu is None
}

/// Whether a text item is shown with a check mark.
pub open spec fn kind_checked(kind: MenuItemKind) -> bool {
    match kind {
        MenuItemKind::Checkbox { checked } => checked,
        MenuItemKind::Radio { selected } => selected,
        _ => false,
    }
}

/// Whether `e` is the native entry for `item` standing at `position`.
pub open spec fn entry_for(e: MenuEntry, item: MenuItem, position: int) -> bool {
    if item.kind == MenuItemKind::Separator {
        e matches MenuEntry::Separator { command } && command == position + 1
    } else {
        &&& e matches MenuEntry::Text { command, label, enabled, checked }
        &&& command == position + 1
        &&& label@ == item.label@
        &&& enabled == item.enabled
        &&& checked == kind_checked(item.kind)
    }
}

/// Positions of the items the popup menu shows, in order.
pub open spec fn kept_positions(items: Seq<MenuItem>) -> Seq<int>
    decreases items.len(),
{
    if items.len() == 0 {
        seq![]
    } else {
        let rest = kept_positions(items.drop_last());
        if is_supported(items.last()) {
            rest.push(items.len() - 1)
        } else {
            rest
        }
    }
}

/// Positions of the items the popup menu cannot show, in order.
pub open spec fn dropped_positions(items: Seq<MenuItem>) -> Seq<int>
    decreases items.len(),
{
    if items.len() == 0 {
        seq![]
    } else {
        let rest = dropped_positions(items.drop_last());
        if is_supported(items.last()) {
            rest
        } else {
            rest.push(items.len() - 1)
        }
    }
}

/// Whether `menu` is the popup menu for `items`: one entry for each supported
/// item in order, and the positions of the others reported.
pub open spec fn menu_for(menu: NativeMenu, items: Seq<MenuItem>) -> bool {
    let kept = kept_positions(items);
    &&& menu.unsupported@.len() == dropped_positions(items).len()
    &&& forall|k: int|
        0 <= k < menu.unsupported@.len() ==> menu.unsupported@[k] as int == #[trigger] dropped_positions(
            items,
        )[k]
    &&& menu.entries@.len() == kept.len()
    &&& forall|k: int|
        0 <= k < kept.len() ==> entry_for(#[trigger] menu.entries@[k], items[kept[k]], kept[k])
}

proof fn lemma_kept_positions_bounded(items: Seq<MenuItem>)
    ensures
        forall|k: int|
            0 <= k < kept_positions(items).len() ==> 0 <= #[trigger] kept_positions(items)[k]
                < items.len(),
        forall|k: int|
            0 <= k < dropped_positions(items).len() ==> 0 <= #[trigger] dropped_positions(
                items,
            )[k] < items.len(),
    decreases items.len(),
{
    if items.len() > 0 {
        let prefix = items.drop_last();
        lemma_kept_positions_bounded(prefix);
        let kept = kept_positions(items);
        let dropped = dropped_positions(items);
        assert forall|k: int| 0 <= k < kept.len() implies 0 <= #[trigger] kept[k] < items.len() by {
            if k < kept_positions(prefix).len() {
                assert(kept[k] == kept_positions(prefix)[k]);
            }
        }
        assert forall|k: int| 0 <= k < dropped.len() implies 0 <= #[trigger] dropped[k]
            < items.len() by {
            if k < dropped_positions(prefix).len() {
                assert(dropped[k] == dropped_positions(prefix)[k]);
            }
        }
    }
}

fn native_entry(item: &MenuItem, position: usize) -> (e: MenuEntry)
    requires
        position < usize::MAX,
    ensures
        entry_for(e, *item, position as int),
{
    let command = position + 1;
    match item.kind {
        MenuItemKind::Separator => MenuEntry::Separator { command },
        kind => {
            let checked = match kind {
                MenuItemKind::Checkbox { checked } => checked,
                MenuItemKind::Radio { selected } => selected,
                _ => false,
            };
            MenuEntry::Text { command, label: item.label.clone(), enabled: item.enabled, checked }
        },
    }
}

/// Builds the native popup menu for `items`. Items that open a submenu cannot
/// be shown there: they are left out and their positions reported, the same
/// way for the same items, and never cause a failure.
pub fn build_menu(items: &Vec<MenuItem>) -> (menu: NativeMenu)
    ensures
        menu_for(menu, items@),
{
    let mut entries: Vec<MenuEntry> = Vec::new();
    let mut unsupported: Vec<usize> = Vec::new();
    let mut i: usize = 0;
    while i < items.len()
        invariant
            i <= items@.len(),
            menu_for(NativeMenu { entries, unsupported }, items@.take(i as int)),
        decreases items@.len() - i,
    {
        let ghost before = items@.take(i as int);
        let ghost after = items@.take(i + 1);
        assert(after.drop_last() == before);
        let item = &items[i];
        if item.submenu.is_none() {
            entries.push(native_entry(item, i));
        } else {
            unsupported.push(i);
        }
        proof {
            lemma_kept_positions_bounded(before);
            assert forall|k: int| 0 <= k < kept_positions(before).len() implies after[kept_positions(
                before,
            )[k]] == before[kept_positions(before)[k]] by {}
        }
        i = i + 1;
    }
    assert(items@.take(items@.len() as int) == items@);
    NativeMenu { entries, unsupported }
}

} // verus!
