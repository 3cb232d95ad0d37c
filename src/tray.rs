//! The fixed set of user actions, and how tray menu items and global
//! shortcuts map onto it.
use vstd::prelude::*;

verus! {

/// An action that the tray menu or a global shortcut can ask for.
#[derive(Clone, Copy, Debug, PartialEq, Eq, Structural)]
pub enum TrayAction {
    ToggleWindow,
    TriggerVoicePipeline,
    OpenSettings,
    OpenLogsDirectory,
    QuitApplication,
}

/// The menu identifier of each action.
pub open spec fn action_id(a: TrayAction) -> Seq<char> {
    match a {
        TrayAction::ToggleWindow => "toggle_window"@,
        TrayAction::TriggerVoicePipeline => "trigger_voice_pipeline"@,
        TrayAction::OpenSettings => "open_settings"@,
        TrayAction::OpenLogsDirectory => "open_logs_directory"@,
        TrayAction::QuitApplication => "quit_application"@,
    }
}

/// The action that a menu identifier selects; unknown identifiers select none.
pub open spec fn action_of_id(id: Seq<char>) -> Option<TrayAction> {
    if id == "toggle_window"@ {
        Some(TrayAction::ToggleWindow)
    } else if id == "trigger_voice_pipeline"@ {
        Some(TrayAction::TriggerVoicePipeline)
    } else if id == "open_settings"@ {
        Some(TrayAction::OpenSettings)
    } else if id == "open_logs_directory"@ {
        Some(TrayAction::OpenLogsDirectory)
    } else if id == "quit_application"@ {
        Some(TrayAction::QuitApplication)
    } else {
        None
    }
}

impl TrayAction {
    /// The identifier of this action's tray menu item.
    pub fn menu_id(&self) -> (r: String)
        ensures
            r@ == action_id(*self),
    {
        match self {
            TrayAction::ToggleWindow => String::from_str("toggle_window"),
            TrayAction::TriggerVoicePipeline => String::from_str("trigger_voice_pipeline"),
            TrayAction::OpenSettings => String::from_str("open_settings"),
            TrayAction::OpenLogsDirectory => String::from_str("open_logs_directory"),
            TrayAction::QuitApplication => String::from_str("quit_application"),
        }
    }

    /// Resolves a selected menu identifier.
    pub fn from_menu_id(id: &str) -> (r: Option<TrayAction>)
        ensures
            r == action_of_id(id@),
    {
        let id = String::from_str(id);
        if id == String::from_str("toggle_window") {
            Some(TrayAction::ToggleWindow)
        } else if id == String::from_str("trigger_voice_pipeline") {
            Some(TrayAction::TriggerVoicePipeline)
        } else if id == String::from_str("open_settings") {
            Some(TrayAction::OpenSettings)
        } else if id == String::from_str("open_logs_directory") {
            Some(TrayAction::OpenLogsDirectory)
        } else if id == String::from_str("quit_application") {
            Some(TrayAction::QuitApplication)
        } else {
            None
        }
    }
}

/// An entry of the tray menu.
#[derive(Clone, Debug)]
pub enum MenuEntry {
    Item { action: TrayAction, label: String },
    Separator,
}

pub open spec fn is_item(e: MenuEntry, action: TrayAction, label: Seq<char>) -> bool {
    e matches MenuEntry::Item { action: a, label: l } && a == action && l@ == label
}

fn item(action: TrayAction, label: &str) -> (r: MenuEntry)
    ensures
        is_item(r, action, label@),
{
    MenuEntry::Item { action, label: String::from_str(label) }
}

/// The tray menu, top to bottom.
pub fn tray_menu() -> (r: Vec<MenuEntry>)
    ensures
        r@.len() == 7,
        is_item(r@[0], TrayAction::ToggleWindow, "Show/Hide Window (Alt+A)"@),
        is_item(r@[1], TrayAction::TriggerVoicePipeline, "Trigger Voice Pipeline (Alt+Shift+A)"@),
        r@[2] is Separator,
        is_item(r@[3], TrayAction::OpenSettings, "Settings"@),
        is_item(r@[4], TrayAction::OpenLogsDirectory, "Open Logs"@),
        r@[5] is Separator,
        is_item(r@[6], TrayAction::QuitApplication, "Quit"@),
{
    let mut r: Vec<MenuEntry> = Vec::new();
    r.push(item(TrayAction::ToggleWindow, "Show/Hide Window (Alt+A)"));
    r.push(item(TrayAction::TriggerVoicePipeline, "Trigger Voice Pipeline (Alt+Shift+A)"));
    r.push(MenuEntry::Separator);
    r.push(item(TrayAction::OpenSettings, "Settings"));
    r.push(item(TrayAction::OpenLogsDirectory, "Open Logs"));
    r.push(MenuEntry::Separator);
    r.push(item(TrayAction::QuitApplication, "Quit"));
    r
}

/// A global key combination and the action it is bound to.
#[derive(Clone, Debug)]
pub struct ShortcutBinding {
    pub accelerator: String,
    pub action: TrayAction,
}

/// The shortcuts registered at startup.
pub fn default_shortcuts() -> (r: Vec<ShortcutBinding>)
    ensures
        r@.len() == 2,
        r@[0].accelerator@ == "Alt+A"@,
        r@[0].action == TrayAction::ToggleWindow,
        r@[1].accelerator@ == "Alt+Shift+A"@,
        r@[1].action == TrayAction::TriggerVoicePipeline,
{
    let mut r: Vec<ShortcutBinding> = Vec::new();
    r.push(ShortcutBinding { accelerator: String::from_str("Alt+A"), action: TrayAction::ToggleWindow });
    r.push(
        ShortcutBinding {
            accelerator: String::from_str("Alt+Shift+A"),
            action: TrayAction::TriggerVoicePipeline,
        },
    );
    r
}

/// The actions of the bindings whose registration succeeded, in order.
pub open spec fn available_actions_spec(
    bindings: Seq<ShortcutBinding>,
    succeeded: Seq<bool>,
) -> Seq<TrayAction>
    decreases bindings.len(),
{
    if bindings.len() == 0 || succeeded.len() == 0 {
        Seq::empty()
    } else {
        let rest = available_actions_spec(bindings.drop_last(), succeeded.drop_last());
        if succeeded.last() {
            rest.push(bindings.last().action)
        } else {
            rest
        }
    }
}

/// Each binding is registered on its own; a failed one only makes its
/// action unavailable from the keyboard. Returns the actions that remain
/// reachable by shortcut.
pub fn available_actions(bindings: &Vec<ShortcutBinding>, succeeded: &Vec<bool>) -> (r: Vec<
    TrayAction,
>)
    requires
        bindings@.len() == succeeded@.len(),
    ensures
        r@ == available_actions_spec(bindings@, succeeded@),
{
    let mut r: Vec<TrayAction> = Vec::new();
    let mut i: usize = 0;
    while i < bindings.len()
        invariant
            i <= bindings@.len() == succeeded@.len(),
            r@ == available_actions_spec(
                bindings@.subrange(0, i as int),
                succeeded@.subrange(0, i as int),
            ),
        decreases bindings@.len() - i,
    {
        proof {
            let b = bindings@.subrange(0, i + 1);
            let s = succeeded@.subrange(0, i + 1);
            assert(b.drop_last() =~= bindings@.subrange(0, i as int));
            assert(s.drop_last() =~= succeeded@.subrange(0, i as int));
        }
        if succeeded[i] {
            r.push(bindings[i].action);
        }
        i = i + 1;
    }
    proof {
        assert(bindings@.subrange(0, i as int) =~= bindings@);
        assert(succeeded@.subrange(0, i as int) =~= succeeded@);
    }
    r
}

} // verus!
