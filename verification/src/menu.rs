//! The context menu: what its commands mean, and what they do to the
//! session.
//!
//! The host shows the menu and the item editor; the session applies what
//! the user chose.

use vstd::prelude::*;
use crate::config::{DockItem, DockSettings};
use crate::dock::DockApp;
use crate::text::str_equal;

verus! {

/// The menu command that edits the item under the pointer.
pub const ID_EDIT_ITEM: u32 = 1001;

/// The menu command that removes the item under the pointer.
pub const ID_REMOVE_ITEM: u32 = 1003;

/// The menu command that adds an item.
pub const ID_ADD_ITEM: u32 = 1004;

/// The menu command that adds a separator.
pub const ID_ADD_SEPARATOR: u32 = 1005;

/// The menu command that locks or unlocks the icons.
pub const ID_TOGGLE_LOCK: u32 = 1006;

/// The menu command that opens the settings file.
pub const ID_OPEN_CONFIG: u32 = 1007;

/// The menu command that quits.
pub const ID_QUIT: u32 = 1008;

/// The menu command that empties the recycle bin.
pub const ID_EMPTY_RECYCLE_BIN: u32 = 1009;

/// The menu command that saves the settings under another name.
pub const ID_SAVE_CONFIG_AS: u32 = 1010;

/// The menu command that loads settings from a file.
pub const ID_LOAD_CONFIG: u32 = 1011;

/// The menu command that resets the settings.
pub const ID_RESET_SETTINGS: u32 = 1012;

/// The menu command that resets settings and items.
pub const ID_RESET_ALL: u32 = 1013;

/// The first of the menu commands that add a system action.
pub const ID_SPECIAL_BASE: u32 = 2000;

/// How many system actions there are.
pub const SPECIAL_COUNT: usize = 16;

/// What the user chose in the context menu.
#[derive(Debug, Clone, PartialEq)]
pub enum ContextMenuAction {
    /// The menu was closed without a choice.
    Dismissed,
    EditItem(usize),
    RemoveItem(usize),
    EmptyRecycleBin,
    AddItem,
    AddSeparator,
    /// Add an item for the system action with the tag given.
    AddSpecial(String),
    ToggleLock,
    OpenConfig,
    SaveConfigAs,
    LoadConfig,
    ResetSettings,
    ResetAll,
    Quit,
}

/// How the item editor was closed.
#[derive(Debug, Clone)]
pub enum DialogResult {
    /// With the item as edited.
    Accepted(DockItem),
    /// With the wish to remove the item.
    Remove,
    /// Without any wish.
    Cancel,
}

/// What the host is to show before a menu choice can be applied.
#[derive(Debug)]
pub enum EditorPrompt {
    /// Nothing: the choice needs no editor.
    NoEditor,
    /// The editor for a new, empty item.
    NewItem,
    /// The editor for a new item, filled in as given.
    Prefilled(DockItem),
    /// The editor for the item at `index`.
    Existing { index: usize },
}

/// What is left for the host to do after a menu choice was applied.
#[derive(Debug, Clone, Copy, PartialEq, Eq, Structural)]
pub enum HostAction {
    Nothing,
    /// Open the settings file in the system's editor.
    OpenConfig,
    /// Ask for a file name and save the settings there.
    SaveConfigAs,
    /// Ask for a file and load the settings from it.
    LoadConfig,
    EmptyRecycleBin,
    Quit,
}

/// The outcome of a menu choice.
#[derive(Debug, Clone, Copy, PartialEq, Eq, Structural)]
pub struct MenuOutcome {
    /// Whether the settings are to be written.
    pub persist: bool,
    /// What else the host is to do.
    pub host: HostAction,
}

/// The tag of the system action number `i`.
pub open spec fn special_tag_of(i: int) -> Seq<char> {
    if i == 0 {
        "start_menu"@
    } else if i == 1 {
        "settings"@
    } else if i == 2 {
        "recycle_bin"@
    } else if i == 3 {
        "show_desktop"@
    } else if i == 4 {
        "system_tray"@
    } else if i == 5 {
        "quick_settings"@
    } else if i == 6 {
        "file_explorer"@
    } else if i == 7 {
        "this_pc"@
    } else if i == 8 {
        "documents"@
    } else if i == 9 {
        "downloads"@
    } else if i == 10 {
        "user_folder"@
    } else if i == 11 {
        "network"@
    } else if i == 12 {
        "control_panel"@
    } else if i == 13 {
        "task_view"@
    } else if i == 14 {
        "action_center"@
    } else {
        "run_dialog"@
    }
}

/// The name under which the system action number `i` is shown.
pub open spec fn special_title_of(i: int) -> Seq<char> {
    if i == 0 {
        "Start Menu"@
    } else if i == 1 {
        "Settings"@
    } else if i == 2 {
        "Recycle Bin"@
    } else if i == 3 {
        "Show Desktop"@
    } else if i == 4 {
        "System Tray (Hidden Icons)"@
    } else if i == 5 {
        "Quick Settings"@
    } else if i == 6 {
        "File Explorer"@
    } else if i == 7 {
        "This PC"@
    } else if i == 8 {
        "Documents"@
    } else if i == 9 {
        "Downloads"@
    } else if i == 10 {
        "User Folder"@
    } else if i == 11 {
        "Network"@
    } else if i == 12 {
        "Control Panel"@
    } else if i == 13 {
        "Task View"@
    } else if i == 14 {
        "Action Center"@
    } else {
        "Run Dialog"@
    }
}

/// The tag of the system action number `i`.
pub fn special_tag(i: usize) -> (tag: &'static str)
    requires
        i < SPECIAL_COUNT,
    ensures
        tag@ == special_tag_of(i as int),
{
    if i == 0 {
        "start_menu"
    } else if i == 1 {
        "settings"
    } else if i == 2 {
        "recycle_bin"
    } else if i == 3 {
        "show_desktop"
    } else if i == 4 {
        "system_tray"
    } else if i == 5 {
        "quick_settings"
    } else if i == 6 {
        "file_explorer"
    } else if i == 7 {
        "this_pc"
    } else if i == 8 {
        "documents"
    } else if i == 9 {
        "downloads"
    } else if i == 10 {
        "user_folder"
    } else if i == 11 {
        "network"
    } else if i == 12 {
        "control_panel"
    } else if i == 13 {
        "task_view"
    } else if i == 14 {
        "action_center"
    } else {
        "run_dialog"
    }
}

/// The name under which the system action number `i` is shown.
pub fn special_title(i: usize) -> (title: &'static str)
    requires
        i < SPECIAL_COUNT,
    ensures
        title@ == special_title_of(i as int),
{
    if i == 0 {
        "Start Menu"
    } else if i == 1 {
        "Settings"
    } else if i == 2 {
        "Recycle Bin"
    } else if i == 3 {
        "Show Desktop"
    } else if i == 4 {
        "System Tray (Hidden Icons)"
    } else if i == 5 {
        "Quick Settings"
    } else if i == 6 {
        "File Explorer"
    } else if i == 7 {
        "This PC"
    } else if i == 8 {
        "Documents"
    } else if i == 9 {
        "Downloads"
    } else if i == 10 {
        "User Folder"
    } else if i == 11 {
        "Network"
    } else if i == 12 {
        "Control Panel"
    } else if i == 13 {
        "Task View"
    } else if i == 14 {
        "Action Center"
    } else {
        "Run Dialog"
    }
}

/// Whether `i` is the first system action with the tag given.
pub open spec fn is_special_number(tag: Seq<char>, i: int) -> bool {
    &&& 0 <= i < SPECIAL_COUNT
    &&& special_tag_of(i) == tag
    &&& forall|j: int| 0 <= j < i ==> special_tag_of(j) != tag
}

/// The number of the system action with the tag given, if there is one.
pub fn find_special(tag: &str) -> (r: Option<usize>)
    ensures
        match r {
            Some(i) => is_special_number(tag@, i as int),
            None => forall|j: int| 0 <= j < SPECIAL_COUNT ==> special_tag_of(j) != tag@,
        },
{
    let mut i: usize = 0;
    while i < SPECIAL_COUNT
        invariant
            i <= SPECIAL_COUNT,
            forall|j: int| 0 <= j < i ==> special_tag_of(j) != tag@,
        decreases SPECIAL_COUNT - i,
    {
        if str_equal(special_tag(i), tag) {
            return Some(i);
        }
        i += 1;
    }
    None
}

/// The name under which a new item for the system action `tag` is shown:
/// the action's own name, or the tag itself for an action that is not known.
pub fn special_item_name(tag: &str) -> (name: String)
    ensures
        (exists|i: int| is_special_number(tag@, i)) ==> exists|i: int|
            is_special_number(tag@, i) && name@ == special_title_of(i),
        !(exists|i: int| is_special_number(tag@, i)) ==> name@ == tag@,
{
    match find_special(tag) {
        Some(i) => {
            assert(is_special_number(tag@, i as int));
            String::from_str(special_title(i))
        },
        None => {
            assert forall|i: int| !is_special_number(tag@, i) by {}
            String::from_str(tag)
        },
    }
}

/// One line of the context menu.
#[derive(Debug, Clone, Copy, PartialEq, Eq, Structural)]
pub enum MenuEntry {
    /// A command, by its number.
    Command(u32),
    /// A dividing line.
    Separator,
    /// The submenu with one command for each system action.
    SpecialSubmenu,
}

/// The lines of the menu that concern the item it was opened on: to
/// empty the recycle bin, if the item is that; and on an unlocked dock to
/// edit the item, unless it is a separator, and to remove it.
pub open spec fn item_entries(
    hit: bool,
    locked: bool,
    is_separator: bool,
    is_recycle_bin: bool,
) -> Seq<MenuEntry> {
    let bin = if hit && is_recycle_bin {
        seq![MenuEntry::Command(ID_EMPTY_RECYCLE_BIN), MenuEntry::Separator]
    } else {
        Seq::empty()
    };
    let edit = if hit && !locked && !is_separator {
        seq![MenuEntry::Command(ID_EDIT_ITEM)]
    } else {
        Seq::empty()
    };
    let remove = if hit && !locked {
        seq![MenuEntry::Command(ID_REMOVE_ITEM), MenuEntry::Separator]
    } else {
        Seq::empty()
    };
    bin + edit + remove
}

/// The lines of the menu that add to the dock; a locked dock has none.
pub open spec fn add_entries(locked: bool) -> Seq<MenuEntry> {
    if locked {
        Seq::empty()
    } else {
        seq![
            MenuEntry::Command(ID_ADD_ITEM),
            MenuEntry::Command(ID_ADD_SEPARATOR),
            MenuEntry::SpecialSubmenu,
            MenuEntry::Separator,
        ]
    }
}

/// The lines that every menu ends with: the lock, the settings file, and
/// quitting.
pub open spec fn general_entries() -> Seq<MenuEntry> {
    seq![
        MenuEntry::Command(ID_TOGGLE_LOCK),
        MenuEntry::Separator,
        MenuEntry::Command(ID_OPEN_CONFIG),
        MenuEntry::Command(ID_SAVE_CONFIG_AS),
        MenuEntry::Command(ID_LOAD_CONFIG),
        MenuEntry::Command(ID_RESET_SETTINGS),
        MenuEntry::Command(ID_RESET_ALL),
        MenuEntry::Separator,
        MenuEntry::Command(ID_QUIT),
    ]
}

/// The lines of the context menu, from the top. `hit` says whether the
/// menu was opened on an item.
pub fn menu_entries(hit: bool, locked: bool, is_separator: bool, is_recycle_bin: bool) -> (entries:
    Vec<MenuEntry>)
    ensures
        entries@ == item_entries(hit, locked, is_separator, is_recycle_bin) + add_entries(locked)
            + general_entries(),
{
    let mut entries: Vec<MenuEntry> = Vec::new();
    if hit {
        if is_recycle_bin {
            entries.push(MenuEntry::Command(ID_EMPTY_RECYCLE_BIN));
            entries.push(MenuEntry::Separator);
        }
        if !locked {
            if !is_separator {
                entries.push(MenuEntry::Command(ID_EDIT_ITEM));
            }
            entries.push(MenuEntry::Command(ID_REMOVE_ITEM));
            entries.push(MenuEntry::Separator);
        }
    }
    assert(entries@ =~= item_entries(hit, locked, is_separator, is_recycle_bin));
    if !locked {
        entries.push(MenuEntry::Command(ID_ADD_ITEM));
        entries.push(MenuEntry::Command(ID_ADD_SEPARATOR));
        entries.push(MenuEntry::SpecialSubmenu);
        entries.push(MenuEntry::Separator);
    }
    assert(entries@ =~= item_entries(hit, locked, is_separator, is_recycle_bin) + add_entries(
        locked,
    ));
    entries.push(MenuEntry::Command(ID_TOGGLE_LOCK));
    entries.push(MenuEntry::Separator);
    entries.push(MenuEntry::Command(ID_OPEN_CONFIG));
    entries.push(MenuEntry::Command(ID_SAVE_CONFIG_AS));
    entries.push(MenuEntry::Command(ID_LOAD_CONFIG));
    entries.push(MenuEntry::Command(ID_RESET_SETTINGS));
    entries.push(MenuEntry::Command(ID_RESET_ALL));
    entries.push(MenuEntry::Separator);
    entries.push(MenuEntry::Command(ID_QUIT));
    assert(entries@ =~= item_entries(hit, locked, is_separator, is_recycle_bin) + add_entries(
        locked,
    ) + general_entries());
    entries
}

/// The text of a command of the menu.
pub open spec fn label_of(id: u32, locked: bool) -> Seq<char> {
    if id == ID_EDIT_ITEM {
        "Edit Item..."@
    } else if id == ID_REMOVE_ITEM {
        "Remove"@
    } else if id == ID_EMPTY_RECYCLE_BIN {
        "Empty Recycle Bin"@
    } else if id == ID_ADD_ITEM {
        "Add Item..."@
    } else if id == ID_ADD_SEPARATOR {
        "Add Separator"@
    } else if id == ID_TOGGLE_LOCK {
        if locked {
            "Unlock Icons"@
        } else {
            "Lock Icons"@
        }
    } else if id == ID_OPEN_CONFIG {
        "Edit Config..."@
    } else if id == ID_SAVE_CONFIG_AS {
        "Save Config As..."@
    } else if id == ID_LOAD_CONFIG {
        "Load Config..."@
    } else if id == ID_RESET_SETTINGS {
        "Reset Settings"@
    } else if id == ID_RESET_ALL {
        "Reset All"@
    } else if id == ID_QUIT {
        "Quit"@
    } else if ID_SPECIAL_BASE <= id < ID_SPECIAL_BASE + SPECIAL_COUNT {
        special_title_of(id - ID_SPECIAL_BASE)
    } else {
        ""@
    }
}

/// The text of a command of the menu. The lock reads "Unlock Icons" on a
/// locked dock.
pub fn menu_label(id: u32, locked: bool) -> (label: &'static str)
    ensures
        label@ == label_of(id, locked),
{
    if id == ID_EDIT_ITEM {
        "Edit Item..."
    } else if id == ID_REMOVE_ITEM {
        "Remove"
    } else if id == ID_EMPTY_RECYCLE_BIN {
        "Empty Recycle Bin"
    } else if id == ID_ADD_ITEM {
        "Add Item..."
    } else if id == ID_ADD_SEPARATOR {
        "Add Separator"
    } else if id == ID_TOGGLE_LOCK {
        if locked {
            "Unlock Icons"
        } else {
            "Lock Icons"
        }
    } else if id == ID_OPEN_CONFIG {
        "Edit Config..."
    } else if id == ID_SAVE_CONFIG_AS {
        "Save Config As..."
    } else if id == ID_LOAD_CONFIG {
        "Load Config..."
    } else if id == ID_RESET_SETTINGS {
        "Reset Settings"
    } else if id == ID_RESET_ALL {
        "Reset All"
    } else if id == ID_QUIT {
        "Quit"
    } else if id >= ID_SPECIAL_BASE && id - ID_SPECIAL_BASE < SPECIAL_COUNT as u32 {
        special_title((id - ID_SPECIAL_BASE) as usize)
    } else {
        ""
    }
}

/// What a command of the context menu means. `item_index` is the item the
/// menu was opened on.
pub fn action_for_command(cmd_id: u32, item_index: Option<usize>) -> (action: ContextMenuAction)
    ensures
        ID_SPECIAL_BASE <= cmd_id < ID_SPECIAL_BASE + SPECIAL_COUNT ==> (action
            matches ContextMenuAction::AddSpecial(tag) && tag@ == special_tag_of(
            cmd_id - ID_SPECIAL_BASE,
        )),
        cmd_id == ID_EDIT_ITEM ==> action == ContextMenuAction::EditItem(
            item_index.unwrap_or(0),
        ),
        cmd_id == ID_REMOVE_ITEM ==> action == ContextMenuAction::RemoveItem(
            item_index.unwrap_or(0),
        ),
        cmd_id == ID_EMPTY_RECYCLE_BIN ==> action == ContextMenuAction::EmptyRecycleBin,
        cmd_id == ID_ADD_ITEM ==> action == ContextMenuAction::AddItem,
        cmd_id == ID_ADD_SEPARATOR ==> action == ContextMenuAction::AddSeparator,
        cmd_id == ID_TOGGLE_LOCK ==> action == ContextMenuAction::ToggleLock,
        cmd_id == ID_OPEN_CONFIG ==> action == ContextMenuAction::OpenConfig,
        cmd_id == ID_SAVE_CONFIG_AS ==> action == ContextMenuAction::SaveConfigAs,
        cmd_id == ID_LOAD_CONFIG ==> action == ContextMenuAction::LoadConfig,
        cmd_id == ID_RESET_SETTINGS ==> action == ContextMenuAction::ResetSettings,
        cmd_id == ID_RESET_ALL ==> action == ContextMenuAction::ResetAll,
        cmd_id == ID_QUIT ==> action == ContextMenuAction::Quit,
        !(ID_SPECIAL_BASE <= cmd_id < ID_SPECIAL_BASE + SPECIAL_COUNT) && !(ID_EDIT_ITEM
            <= cmd_id <= ID_RESET_ALL && cmd_id != 1002) ==> action
            == ContextMenuAction::Dismissed,
{
    if cmd_id >= ID_SPECIAL_BASE && (cmd_id - ID_SPECIAL_BASE) < SPECIAL_COUNT as u32 {
        let i: usize = (cmd_id - ID_SPECIAL_BASE) as usize;
        return ContextMenuAction::AddSpecial(String::from_str(special_tag(i)));
    }
    let index: usize = match item_index {
        Some(i) => i,
        None => 0,
    };
    if cmd_id == ID_EDIT_ITEM {
        ContextMenuAction::EditItem(index)
    } else if cmd_id == ID_REMOVE_ITEM {
        ContextMenuAction::RemoveItem(index)
    } else if cmd_id == ID_EMPTY_RECYCLE_BIN {
        ContextMenuAction::EmptyRecycleBin
    } else if cmd_id == ID_ADD_ITEM {
        ContextMenuAction::AddItem
    } else if cmd_id == ID_ADD_SEPARATOR {
        ContextMenuAction::AddSeparator
    } else if cmd_id == ID_TOGGLE_LOCK {
        ContextMenuAction::ToggleLock
    } else if cmd_id == ID_OPEN_CONFIG {
        ContextMenuAction::OpenConfig
    } else if cmd_id == ID_SAVE_CONFIG_AS {
        ContextMenuAction::SaveConfigAs
    } else if cmd_id == ID_LOAD_CONFIG {
        ContextMenuAction::LoadConfig
    } else if cmd_id == ID_RESET_SETTINGS {
        ContextMenuAction::ResetSettings
    } else if cmd_id == ID_RESET_ALL {
        ContextMenuAction::ResetAll
    } else if cmd_id == ID_QUIT {
        ContextMenuAction::Quit
    } else {
        ContextMenuAction::Dismissed
    }
}

/// Whether an item is a separator as the menu adds it: named by three
/// dashes, and with nothing else to it.
pub open spec fn is_plain_separator(item: DockItem) -> bool {
    &&& item.name@ == "---"@
    &&& item.path@.len() == 0
    &&& item.icon is None
    &&& item.args@.len() == 0
    &&& item.separator
    &&& item.special is None
}

/// Whether a menu choice, with the way the editor was closed, changes
/// the list of items.
pub open spec fn edits_items(action: ContextMenuAction, result: DialogResult, len: int) -> bool {
    match action {
        ContextMenuAction::AddItem | ContextMenuAction::AddSpecial(_) => result
            is Accepted,
        ContextMenuAction::AddSeparator => true,
        ContextMenuAction::RemoveItem(idx) => idx < len,
        ContextMenuAction::EditItem(idx) => idx < len && !(result is Cancel),
        _ => false,
    }
}

/// Whether `after` is the list that a menu choice makes of `before`: a
/// new item or separator goes to the end, an edited item takes the place
/// of the old one, a removed item leaves.
pub open spec fn menu_edit(
    before: Seq<DockItem>,
    action: ContextMenuAction,
    result: DialogResult,
    after: Seq<DockItem>,
) -> bool {
    match action {
        ContextMenuAction::AddItem | ContextMenuAction::AddSpecial(_) => match result {
            DialogResult::Accepted(item) => after == before.push(item),
            _ => after == before,
        },
        ContextMenuAction::AddSeparator => after.len() == before.len() + 1 && after.drop_last()
            == before && is_plain_separator(after.last()),
        ContextMenuAction::RemoveItem(idx) => if idx < before.len() {
            after == before.remove(idx as int)
        } else {
            after == before
        },
        ContextMenuAction::EditItem(idx) => if idx < before.len() {
            match result {
                DialogResult::Accepted(item) => after == before.update(idx as int, item),
                DialogResult::Remove => after == before.remove(idx as int),
                DialogResult::Cancel => after == before,
            }
        } else {
            after == before
        },
        _ => after == before,
    }
}

/// What a menu choice leaves for the host to do.
pub open spec fn host_action(action: ContextMenuAction) -> HostAction {
    match action {
        ContextMenuAction::OpenConfig => HostAction::OpenConfig,
        ContextMenuAction::SaveConfigAs => HostAction::SaveConfigAs,
        ContextMenuAction::LoadConfig => HostAction::LoadConfig,
        ContextMenuAction::EmptyRecycleBin => HostAction::EmptyRecycleBin,
        ContextMenuAction::Quit => HostAction::Quit,
        _ => HostAction::Nothing,
    }
}

impl DockApp {
    /// What the host is to show before the menu choice can be applied: the
    /// item editor for a choice that adds or edits an item, nothing for
    /// any other and for an index that names no item.
    pub fn editor_prompt(&self, action: &ContextMenuAction) -> (prompt: EditorPrompt)
        ensures
            match *action {
                ContextMenuAction::AddItem => prompt is NewItem,
                ContextMenuAction::AddSpecial(tag) => {
                    &&& prompt matches EditorPrompt::Prefilled(item)
                    &&& item.special == Some(tag)
                    &&& !item.separator
                    &&& item.path@.len() == 0
                    &&& item.icon is None
                    &&& item.args@.len() == 0
                    &&& ((exists|i: int| is_special_number(tag@, i)) ==> exists|i: int|
                        is_special_number(tag@, i) && item.name@ == special_title_of(i))
                    &&& (!(exists|i: int| is_special_number(tag@, i)) ==> item.name@ == tag@)
                },
                ContextMenuAction::EditItem(idx) => if idx < self.items@.len() {
                    prompt == (EditorPrompt::Existing { index: idx })
                } else {
                    prompt is NoEditor
                },
                _ => prompt is NoEditor,
            },
    {
        match action {
            ContextMenuAction::AddItem => EditorPrompt::NewItem,
            ContextMenuAction::AddSpecial(tag) => {
                let name: String = special_item_name(tag.as_str());
                EditorPrompt::Prefilled(DockItem::new_special(name, tag.clone()))
            },
            ContextMenuAction::EditItem(idx) => {
                if *idx < self.items.len() {
                    EditorPrompt::Existing { index: *idx }
                } else {
                    EditorPrompt::NoEditor
                }
            },
            _ => EditorPrompt::NoEditor,
        }
    }

    /// Applies a menu choice. `result` says how the item editor was
    /// closed, for a choice that opened it; for any other it is not looked
    /// at. A change to the items is to be written and read again; a change
    /// of the lock is to be written.
    pub fn apply_menu_action(&mut self, action: ContextMenuAction, result: DialogResult) -> (outcome:
        MenuOutcome)
        ensures
            menu_edit(old(self).items@, action, result, final(self).items@),
            final(self).settings == (if action is ToggleLock {
                DockSettings { locked: !old(self).settings.locked, ..old(self).settings }
            } else {
                old(self).settings
            }),
            final(self).needs_reload == (old(self).needs_reload || edits_items(
                action,
                result,
                old(self).items@.len() as int,
            )),
            outcome.persist == (action is ToggleLock || edits_items(
                action,
                result,
                old(self).items@.len() as int,
            )),
            outcome.host == host_action(action),
            final(self).renderer == old(self).renderer,
            final(self).running_states == old(self).running_states,
            final(self).icon_scales == old(self).icon_scales,
            final(self).pointer == old(self).pointer,
            final(self).motion == old(self).motion,
            final(self).schedule == old(self).schedule,
            final(self).screen_width == old(self).screen_width,
            final(self).screen_height == old(self).screen_height,
            final(self).last_config_modified == old(self).last_config_modified,
            final(self).taskbar_hidden == old(self).taskbar_hidden,
            final(self).fullscreen_active == old(self).fullscreen_active,
    {
        let mut persist: bool = false;
        let mut host: HostAction = HostAction::Nothing;
        match action {
            ContextMenuAction::AddItem | ContextMenuAction::AddSpecial(_) => {
                match result {
                    DialogResult::Accepted(item) => {
                        self.items.push(item);
                        persist = true;
                        self.needs_reload = true;
                    },
                    _ => {},
                }
            },
            ContextMenuAction::AddSeparator => {
                let ghost before = self.items@;
                self.items.push(DockItem::new_separator());
                assert(self.items@.drop_last() =~= before);
                persist = true;
                self.needs_reload = true;
            },
            ContextMenuAction::RemoveItem(idx) => {
                if idx < self.items.len() {
                    let _ = self.items.remove(idx);
                    persist = true;
                    self.needs_reload = true;
                }
            },
            ContextMenuAction::EditItem(idx) => {
                if idx < self.items.len() {
                    match result {
                        DialogResult::Accepted(item) => {
                            self.items[idx] = item;
                            persist = true;
                            self.needs_reload = true;
                        },
                        DialogResult::Remove => {
                            let _ = self.items.remove(idx);
                            persist = true;
                            self.needs_reload = true;
                        },
                        DialogResult::Cancel => {},
                    }
                }
            },
            ContextMenuAction::ToggleLock => {
                self.settings.locked = !self.settings.locked;
                persist = true;
            },
            ContextMenuAction::OpenConfig => {
                host = HostAction::OpenConfig;
            },
            ContextMenuAction::SaveConfigAs => {
                host = HostAction::SaveConfigAs;
            },
            ContextMenuAction::LoadConfig => {
                host = HostAction::LoadConfig;
            },
            ContextMenuAction::EmptyRecycleBin => {
                host = HostAction::EmptyRecycleBin;
            },
            ContextMenuAction::Quit => {
                host = HostAction::Quit;
            },
            _ => {},
        }
        MenuOutcome { persist, host }
    }

    /// Takes over settings and items that the user loaded from a file, and
    /// asks for a reload.
    pub fn adopt_config(&mut self, settings: DockSettings, items: Vec<DockItem>)
        ensures
            *final(self) == (DockApp { settings, items, needs_reload: true, ..*old(self) }),
    {
        self.settings = settings;
        self.items = items;
        self.needs_reload = true;
    }
}

} // verus!
