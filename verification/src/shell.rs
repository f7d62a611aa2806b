//! What the shell around the manager shows: the entries of its tray menu, what
//! each entry stands for, and the icon in the tray.

use crate::text::same_text;
use crate::tools::{Tool, RESOLVE_SYNC_ID};
use vstd::prelude::*;

verus! {

/// What the shell remembers between commands.
#[derive(Clone, Copy, Debug, PartialEq, Eq, Structural)]
pub struct AppState {
    /// Whether the last check found an update for some tool.
    pub has_updates: bool,
}

/// The icon shown in the tray.
#[derive(Clone, Copy, Debug, PartialEq, Eq, Structural)]
pub enum TrayIcon {
    /// Nothing to report.
    Plain,
    /// An update is waiting.
    UpdateAvailable,
}

impl AppState {
    /// The state at start: no update is known.
    pub fn new() -> (r: Self)
        ensures
            !r.has_updates,
    {
        AppState { has_updates: false }
    }

    /// Notes whether the last check found an update.
    pub fn set_has_updates(&mut self, has_updates: bool)
        ensures
            final(self).has_updates == has_updates,
    {
        self.has_updates = has_updates;
    }

    /// The icon to show.
    pub fn tray_icon(&self) -> (icon: TrayIcon)
        ensures
            icon == tray_icon_for(self.has_updates),
    {
        tray_icon_for(self.has_updates)
    }
}

/// The icon that tells whether an update is waiting.
#[verifier::when_used_as_spec(tray_icon_shown)]
pub fn tray_icon_for(has_update: bool) -> (icon: TrayIcon)
    ensures
        icon == tray_icon_shown(has_update),
{
    if has_update {
        TrayIcon::UpdateAvailable
    } else {
        TrayIcon::Plain
    }
}

/// The icon that tells whether an update is waiting.
pub open spec fn tray_icon_shown(has_update: bool) -> TrayIcon {
    if has_update {
        TrayIcon::UpdateAvailable
    } else {
        TrayIcon::Plain
    }
}

/// The address of the Spellbook web application.
pub const SPELLBOOK_URL: &'static str = "https://spellbook.story.inc";

/// The address of the Story Portal web application.
pub const PORTAL_URL: &'static str = "https://portal.story.inc";

/// One line of the tray menu.
#[derive(Clone, Copy, Debug, PartialEq, Eq)]
pub enum MenuEntry {
    /// An entry to choose, known to the shell by `id` and shown as `label`.
    Item { id: &'static str, label: &'static str },
    /// A dividing line.
    Separator,
}

/// A `MenuEntry` with its texts as sequences of characters.
pub enum MenuEntryView {
    Item { id: Seq<char>, label: Seq<char> },
    Separator,
}

impl View for MenuEntry {
    type V = MenuEntryView;

    open spec fn view(&self) -> MenuEntryView {
        match *self {
            MenuEntry::Item { id, label } => MenuEntryView::Item { id: id@, label: label@ },
            MenuEntry::Separator => MenuEntryView::Separator,
        }
    }
}

/// What choosing an entry of the tray menu asks for.
#[derive(Clone, Copy, Debug, PartialEq, Eq)]
pub enum MenuCommand {
    /// Start the bundle of a tool.
    Launch(Tool),
    /// Open a web address.
    OpenUrl(&'static str),
    /// Bring up the main window and have it check for updates.
    CheckUpdates,
    /// Bring up the main window.
    ShowLauncher,
    /// Leave.
    Quit,
    /// The identifier belongs to no entry.
    Nothing,
}

/// A `MenuCommand` with its texts as sequences of characters.
pub enum MenuCommandView {
    Launch(Tool),
    OpenUrl(Seq<char>),
    CheckUpdates,
    ShowLauncher,
    Quit,
    Nothing,
}

impl View for MenuCommand {
    type V = MenuCommandView;

    open spec fn view(&self) -> MenuCommandView {
        match *self {
            MenuCommand::Launch(tool) => MenuCommandView::Launch(tool),
            MenuCommand::OpenUrl(url) => MenuCommandView::OpenUrl(url@),
            MenuCommand::CheckUpdates => MenuCommandView::CheckUpdates,
            MenuCommand::ShowLauncher => MenuCommandView::ShowLauncher,
            MenuCommand::Quit => MenuCommandView::Quit,
            MenuCommand::Nothing => MenuCommandView::Nothing,
        }
    }
}

/// The entries that the tray menu always shows, below those of the installed
/// tools: the web applications, the commands of the launcher, and the way out.
pub open spec fn fixed_entries() -> Seq<MenuEntryView> {
    seq![
        MenuEntryView::Item { id: "spellbook"@, label: "Spellbook"@ },
        MenuEntryView::Item { id: "portal"@, label: "Story Portal"@ },
        MenuEntryView::Separator,
        MenuEntryView::Item { id: "check-updates"@, label: "Check for Updates"@ },
        MenuEntryView::Item { id: "open-launcher"@, label: "Open Story Launcher"@ },
        MenuEntryView::Separator,
        MenuEntryView::Item { id: "quit"@, label: "Quit Story Launcher"@ },
    ]
}

/// Whether `id` is among `names`.
pub open spec fn lists(names: Seq<String>, id: Seq<char>) -> bool {
    exists|i: int| 0 <= i < names.len() && names[i]@ == id
}

/// The tray menu: the Resolve sync tool first, where it is listed as
/// installed, then the fixed entries.
pub open spec fn menu_entries(installed_tools: Seq<String>) -> Seq<MenuEntryView> {
    if lists(installed_tools, RESOLVE_SYNC_ID@) {
        seq![MenuEntryView::Item { id: RESOLVE_SYNC_ID@, label: "Resolve Sync Script"@ }]
            + fixed_entries()
    } else {
        fixed_entries()
    }
}

/// The views of a run of menu entries.
pub open spec fn entry_views(entries: Seq<MenuEntry>) -> Seq<MenuEntryView> {
    Seq::new(entries.len(), |i: int| entries[i]@)
}

/// Whether `id` is among `names`.
fn is_listed(names: &Vec<String>, id: &str) -> (r: bool)
    ensures
        r == lists(names@, id@),
{
    let mut i: usize = 0;
    while i < names.len()
        invariant
            i <= names@.len(),
            forall|j: int| 0 <= j < i ==> names@[j]@ != id@,
        decreases names@.len() - i,
    {
        if same_text(names[i].as_str(), id) {
            return true;
        }
        i += 1;
    }
    false
}

/// The entries of the tray menu, top to bottom, given the identifiers of the
/// installed tools.
pub fn tray_menu(installed_tools: &Vec<String>) -> (entries: Vec<MenuEntry>)
    ensures
        entry_views(entries@) == menu_entries(installed_tools@),
{
    let mut entries: Vec<MenuEntry> = Vec::new();
    if is_listed(installed_tools, RESOLVE_SYNC_ID) {
        entries.push(MenuEntry::Item { id: RESOLVE_SYNC_ID, label: "Resolve Sync Script" });
    }
    entries.push(MenuEntry::Item { id: "spellbook", label: "Spellbook" });
    entries.push(MenuEntry::Item { id: "portal", label: "Story Portal" });
    entries.push(MenuEntry::Separator);
    entries.push(MenuEntry::Item { id: "check-updates", label: "Check for Updates" });
    entries.push(MenuEntry::Item { id: "open-launcher", label: "Open Story Launcher" });
    entries.push(MenuEntry::Separator);
    entries.push(MenuEntry::Item { id: "quit", label: "Quit Story Launcher" });
    entries
}

/// What choosing the entry known as `id` asks for.
pub open spec fn command_for(id: Seq<char>) -> MenuCommandView {
    if id == RESOLVE_SYNC_ID@ {
        MenuCommandView::Launch(Tool::ResolveSync)
    } else if id == "spellbook"@ {
        MenuCommandView::OpenUrl(SPELLBOOK_URL@)
    } else if id == "portal"@ {
        MenuCommandView::OpenUrl(PORTAL_URL@)
    } else if id == "check-updates"@ {
        MenuCommandView::CheckUpdates
    } else if id == "open-launcher"@ {
        MenuCommandView::ShowLauncher
    } else if id == "quit"@ {
        MenuCommandView::Quit
    } else {
        MenuCommandView::Nothing
    }
}

/// What choosing the entry known as `id` asks for.
pub fn menu_command(id: &str) -> (command: MenuCommand)
    ensures
        command@ == command_for(id@),
{
    if same_text(id, RESOLVE_SYNC_ID) {
        MenuCommand::Launch(Tool::ResolveSync)
    } else if same_text(id, "spellbook") {
        MenuCommand::OpenUrl(SPELLBOOK_URL)
    } else if same_text(id, "portal") {
        MenuCommand::OpenUrl(PORTAL_URL)
    } else if same_text(id, "check-updates") {
        MenuCommand::CheckUpdates
    } else if same_text(id, "open-launcher") {
        MenuCommand::ShowLauncher
    } else if same_text(id, "quit") {
        MenuCommand::Quit
    } else {
        MenuCommand::Nothing
    }
}

/// Every entry that the tray menu offers asks for something.
pub proof fn lemma_every_entry_has_a_command(installed_tools: Seq<String>, i: int)
    requires
        0 <= i < menu_entries(installed_tools).len(),
    ensures
        menu_entries(installed_tools)[i] matches MenuEntryView::Item { id, label } ==> !(
        command_for(id) is Nothing),
{
}

} // verus!
