//! The tray menu as data: what it shows for the saved accounts and their
//! usage, which entries are enabled, and which action each entry stands for.
use vstd::prelude::*;

use crate::account_map::{account_entries, entry_names, keys_unique, map_keys};
use crate::model::opt_view;
use crate::text::{decimal, digits, group_thousands, grouped_digits};
use crate::tray::{usage_view, TrayState, UsageFigures, UsageState, UsageStateView, UsageStatus};

verus! {

/// What a menu entry sets off.
#[derive(Clone, Debug)]
pub enum Action {
    Switch(String),
    Delete(String),
    RefreshUsage,
    SaveCurrent,
    OpenAccounts,
    OpenNani,
    TogglePeriodicUsageRefresh,
    ToggleStartup,
    Exit,
}

pub enum ActionView {
    Switch(Seq<char>),
    Delete(Seq<char>),
    RefreshUsage,
    SaveCurrent,
    OpenAccounts,
    OpenNani,
    TogglePeriodicUsageRefresh,
    ToggleStartup,
    Exit,
}

impl View for Action {
    type V = ActionView;

    open spec fn view(&self) -> ActionView {
        match self {
            Action::Switch(n) => ActionView::Switch(n@),
            Action::Delete(n) => ActionView::Delete(n@),
            Action::RefreshUsage => ActionView::RefreshUsage,
            Action::SaveCurrent => ActionView::SaveCurrent,
            Action::OpenAccounts => ActionView::OpenAccounts,
            Action::OpenNani => ActionView::OpenNani,
            Action::TogglePeriodicUsageRefresh => ActionView::TogglePeriodicUsageRefresh,
            Action::ToggleStartup => ActionView::ToggleStartup,
            Action::Exit => ActionView::Exit,
        }
    }
}

/// An entry of an account's submenu.
#[derive(Clone, Debug)]
pub enum SubmenuItem {
    /// Text that cannot be clicked.
    Label(String),
    Separator,
    /// An entry that sets off the action registered under `id`.
    Command { id: String, label: String, enabled: bool },
}

pub enum SubmenuItemView {
    Label(Seq<char>),
    Separator,
    Command { id: Seq<char>, label: Seq<char>, enabled: bool },
}

impl View for SubmenuItem {
    type V = SubmenuItemView;

    open spec fn view(&self) -> SubmenuItemView {
        match self {
            SubmenuItem::Label(t) => SubmenuItemView::Label(t@),
            SubmenuItem::Separator => SubmenuItemView::Separator,
            SubmenuItem::Command { id, label, enabled } => SubmenuItemView::Command {
                id: id@,
                label: label@,
                enabled: *enabled,
            },
        }
    }
}

/// An entry of the tray menu.
#[derive(Clone, Debug)]
pub enum MenuItem {
    /// Text that cannot be clicked.
    Label(String),
    Separator,
    /// An account's submenu.
    Submenu { id: String, label: String, items: Vec<SubmenuItem> },
    /// An entry that sets off the action registered under `id`.
    Command { id: String, label: String, enabled: bool },
    /// A check entry that sets off the action registered under `id`.
    Check { id: String, label: String, checked: bool },
}

pub enum MenuItemView {
    Label(Seq<char>),
    Separator,
    Submenu { id: Seq<char>, label: Seq<char>, items: Seq<SubmenuItemView> },
    Command { id: Seq<char>, label: Seq<char>, enabled: bool },
    Check { id: Seq<char>, label: Seq<char>, checked: bool },
}

pub open spec fn submenu_view(items: Seq<SubmenuItem>) -> Seq<SubmenuItemView> {
    items.map_values(|i: SubmenuItem| i@)
}

impl View for MenuItem {
    type V = MenuItemView;

    open spec fn view(&self) -> MenuItemView {
        match self {
            MenuItem::Label(t) => MenuItemView::Label(t@),
            MenuItem::Separator => MenuItemView::Separator,
            MenuItem::Submenu { id, label, items } => MenuItemView::Submenu {
                id: id@,
                label: label@,
                items: submenu_view(items@),
            },
            MenuItem::Command { id, label, enabled } => MenuItemView::Command {
                id: id@,
                label: label@,
                enabled: *enabled,
            },
            MenuItem::Check { id, label, checked } => MenuItemView::Check {
                id: id@,
                label: label@,
                checked: *checked,
            },
        }
    }
}

pub open spec fn items_view(items: Seq<MenuItem>) -> Seq<MenuItemView> {
    items.map_values(|i: MenuItem| i@)
}

pub open spec fn actions_view(actions: Seq<(String, Action)>) -> Seq<(Seq<char>, ActionView)> {
    actions.map_values(|a: (String, Action)| (a.0@, a.1@))
}

/// The menu, and the action of each entry that sets one off, by entry id.
pub struct MenuModel {
    pub items: Vec<MenuItem>,
    pub actions: Vec<(String, Action)>,
}

/// The usage summary shown next to an account's name.
pub open spec fn spec_usage_summary(entry: Option<UsageStateView>) -> Seq<char> {
    match entry {
        None => "loading usage..."@,
        Some(e) => if e.status == UsageStatus::Loading {
            "loading usage..."@
        } else if e.status == UsageStatus::Error {
            "usage error ("@ + error_text(e.error) + ")"@
        } else {
            match e.usage {
                None => "usage unavailable"@,
                Some(u) => grouped_digits(u.tokens_left as nat) + " tokens, "@ + grouped_digits(
                    u.calls_left as nat,
                ) + " calls left"@ + status_suffix(e.status),
            }
        },
    }
}

/// An error message, or `unknown error` when there is none.
pub open spec fn error_text(error: Option<Seq<char>>) -> Seq<char> {
    match error {
        Some(e) => e,
        None => "unknown error"@,
    }
}

pub open spec fn status_suffix(status: UsageStatus) -> Seq<char> {
    if status == UsageStatus::Stale {
        " - stale"@
    } else if status == UsageStatus::Refreshing {
        " - refreshing"@
    } else {
        ""@
    }
}

fn error_string(error: &Option<String>) -> (s: String)
    ensures
        s@ == error_text(opt_view(*error)),
{
    match error {
        Some(e) => e.clone(),
        None => "unknown error".to_owned(),
    }
}

/// The usage summary shown next to an account's name.
pub fn usage_summary(entry: Option<&UsageState>) -> (s: String)
    ensures
        s@ == spec_usage_summary(
            match entry {
                Some(e) => Some(e@),
                None => None,
            },
        ),
{
    let entry = match entry {
        None => return "loading usage...".to_owned(),
        Some(entry) => entry,
    };
    if entry.status == UsageStatus::Loading {
        return "loading usage...".to_owned();
    }
    if entry.status == UsageStatus::Error {
        let mut s = "usage error (".to_owned();
        s.append(error_string(&entry.error).as_str());
        s.append(")");
        return s;
    }
    let usage = match entry.usage {
        None => return "usage unavailable".to_owned(),
        Some(usage) => usage,
    };
    let suffix = if entry.status == UsageStatus::Stale {
        " - stale"
    } else if entry.status == UsageStatus::Refreshing {
        " - refreshing"
    } else {
        ""
    };
    let mut s = group_thousands(usage.tokens_left);
    s.append(" tokens, ");
    s.append(group_thousands(usage.calls_left).as_str());
    s.append(" calls left");
    s.append(suffix);
    s
}

/// What the menu is built from.
pub struct MenuInputView {
    pub names: Seq<Seq<char>>,
    pub current_name: Option<Seq<char>>,
    pub has_snapshot: bool,
    pub usage: Map<Seq<char>, UsageStateView>,
    pub usage_refreshing: bool,
    pub periodic_usage_refresh: bool,
    pub busy: bool,
    pub seconds_since_refresh: Option<u64>,
    pub startup_enabled: bool,
}

pub open spec fn menu_input(state: TrayState, seconds_since_refresh: Option<u64>, startup_enabled: bool) -> MenuInputView {
    MenuInputView {
        names: entry_names(account_entries(state.accounts)),
        current_name: opt_view(state.current_name),
        has_snapshot: state.current_snapshot is Some,
        usage: usage_view(state.usage@),
        usage_refreshing: state.usage_refreshing,
        periodic_usage_refresh: state.periodic_usage_refresh,
        busy: state.busy,
        seconds_since_refresh,
        startup_enabled,
    }
}

pub open spec fn current_label(m: MenuInputView) -> Seq<char> {
    match m.current_name {
        Some(name) => "Current: "@ + name,
        None => if m.has_snapshot {
            "Current account is not saved"@
        } else {
            "Nani is not signed in"@
        },
    }
}

pub open spec fn lookup(m: Map<Seq<char>, UsageStateView>, name: Seq<char>) -> Option<UsageStateView> {
    if m.contains_key(name) {
        Some(m[name])
    } else {
        None
    }
}

pub open spec fn is_current(m: MenuInputView, name: Seq<char>) -> bool {
    m.current_name == Some(name)
}

/// The figures of an account's usage, one line each.
pub open spec fn usage_lines(u: UsageFigures, e: UsageStateView) -> Seq<SubmenuItemView> {
    seq![
        SubmenuItemView::Label("Tokens: "@ + grouped_digits(u.tokens_left as nat) + " left ("@ + grouped_digits(u.tokens_used as nat) + " / "@ + grouped_digits(u.tokens_total as nat) + ")"@),
        SubmenuItemView::Label("Calls: "@ + grouped_digits(u.calls_left as nat) + " left ("@ + grouped_digits(u.calls_used as nat) + " / "@ + grouped_digits(u.calls_total as nat) + ")"@),
    ] + match u.reset {
        Some(r) => seq![SubmenuItemView::Label("Reset in: "@ + grouped_digits(r.days as nat) + "d "@ + grouped_digits(r.hours as nat) + "h"@)],
        None => Seq::<SubmenuItemView>::empty(),
    } + if e.status == UsageStatus::Stale {
        seq![SubmenuItemView::Label("Last refresh failed: "@ + error_text(e.error))]
    } else {
        Seq::<SubmenuItemView>::empty()
    }
}

/// The lines about an account's usage at the top of its submenu.
pub open spec fn usage_section(entry: Option<UsageStateView>) -> Seq<SubmenuItemView> {
    match entry {
        Some(e) => match e.usage {
            Some(u) => usage_lines(u, e),
            None => if e.status == UsageStatus::Error {
                seq![SubmenuItemView::Label("Usage unavailable"@), SubmenuItemView::Label(error_text(e.error))]
            } else {
                seq![SubmenuItemView::Label("Loading usage..."@)]
            },
        },
        None => seq![SubmenuItemView::Label("Loading usage..."@)],
    }
}

/// The submenu of the account at position `index`.
pub open spec fn account_submenu(m: MenuInputView, index: nat) -> MenuItemView {
    let name = m.names[index as int];
    let current = is_current(m, name);
    let entry = lookup(m.usage, name);
    MenuItemView::Submenu {
        id: "account-"@ + digits(index),
        label: (if current { "✓ "@ } else { "    "@ }) + name + " - "@ + spec_usage_summary(entry),
        items: usage_section(entry) + seq![
            SubmenuItemView::Separator,
            SubmenuItemView::Command {
                id: "switch-"@ + digits(index),
                label: if current { "Current account"@ } else { "Switch to "@ + name },
                enabled: !current && !m.busy,
            },
            SubmenuItemView::Command {
                id: "delete-"@ + digits(index),
                label: "Remove saved account"@,
                enabled: !m.busy,
            },
        ],
    }
}

/// The line that says when usage was last refreshed.
pub open spec fn usage_refresh_label(m: MenuInputView) -> Seq<char> {
    if m.usage_refreshing {
        "Refreshing usage..."@
    } else {
        match m.seconds_since_refresh {
            Some(seconds) => if seconds < 60 {
                "Usage updated: just now"@
            } else {
                "Usage updated: "@ + digits((seconds / 60) as nat) + " min ago"@
            },
            None => "Usage has not been refreshed"@,
        }
    }
}

/// The whole menu: a header with the current login, one submenu per saved
/// account in order, then the usage line, the commands and the settings.
pub open spec fn spec_menu_items(m: MenuInputView) -> Seq<MenuItemView> {
    seq![
        MenuItemView::Label("Nani Switch"@),
        MenuItemView::Label(current_label(m)),
        MenuItemView::Separator,
    ] + (if m.names.len() == 0 {
        seq![MenuItemView::Label("No saved accounts"@)]
    } else {
        Seq::<MenuItemView>::empty()
    }) + Seq::new(m.names.len(), |i: int| account_submenu(m, i as nat)) + seq![
        MenuItemView::Separator,
        MenuItemView::Label(usage_refresh_label(m)),
        MenuItemView::Command {
            id: "refresh"@,
            label: "Refresh usage"@,
            enabled: m.names.len() > 0 && !m.usage_refreshing,
        },
        MenuItemView::Command { id: "save"@, label: "Save / update current login"@, enabled: !m.busy },
        MenuItemView::Command { id: "folder"@, label: "Open accounts folder"@, enabled: true },
        MenuItemView::Command { id: "nani"@, label: "Open Nani"@, enabled: true },
        MenuItemView::Separator,
        MenuItemView::Check {
            id: "periodic-refresh"@,
            label: "Refresh usage every 5 minutes"@,
            checked: m.periodic_usage_refresh,
        },
        MenuItemView::Check { id: "startup"@, label: "Start with Windows"@, checked: m.startup_enabled },
        MenuItemView::Command { id: "exit"@, label: "Exit Nani Switch"@, enabled: true },
    ]
}

/// The actions of the account at position `index`: switching to it and removing it.
pub open spec fn account_actions(m: MenuInputView, index: nat) -> Seq<(Seq<char>, ActionView)> {
    seq![
        ("switch-"@ + digits(index), ActionView::Switch(m.names[index as int])),
        ("delete-"@ + digits(index), ActionView::Delete(m.names[index as int])),
    ]
}

pub open spec fn accounts_actions(m: MenuInputView, count: nat) -> Seq<(Seq<char>, ActionView)>
    decreases count,
{
    if count == 0 {
        Seq::empty()
    } else {
        accounts_actions(m, (count - 1) as nat) + account_actions(m, (count - 1) as nat)
    }
}

/// Every entry's action, by entry id.
pub open spec fn spec_menu_actions(m: MenuInputView) -> Seq<(Seq<char>, ActionView)> {
    accounts_actions(m, m.names.len()) + seq![
        ("refresh"@, ActionView::RefreshUsage),
        ("save"@, ActionView::SaveCurrent),
        ("folder"@, ActionView::OpenAccounts),
        ("nani"@, ActionView::OpenNani),
        ("periodic-refresh"@, ActionView::TogglePeriodicUsageRefresh),
        ("startup"@, ActionView::ToggleStartup),
        ("exit"@, ActionView::Exit),
    ]
}

/// The actions of the first `count` accounts: at `2 i` switching to account
/// `i`, at `2 i + 1` removing it.
proof fn lemma_accounts_actions(m: MenuInputView, count: nat)
    requires
        count <= m.names.len(),
    ensures
        accounts_actions(m, count).len() == 2 * count,
        forall|i: int|
            #![trigger accounts_actions(m, count)[2 * i]]
            0 <= i < count ==> accounts_actions(m, count)[2 * i] == ("switch-"@ + digits(i as nat), ActionView::Switch(
                m.names[i],
            )),
        forall|i: int|
            #![trigger accounts_actions(m, count)[2 * i + 1]]
            0 <= i < count ==> accounts_actions(m, count)[2 * i + 1] == ("delete-"@ + digits(i as nat), ActionView::Delete(
                m.names[i],
            )),
    decreases count,
{
    if count > 0 {
        let c = (count - 1) as nat;
        lemma_accounts_actions(m, c);
        assert(accounts_actions(m, count) == accounts_actions(m, c) + account_actions(m, c));
        assert forall|i: int| 0 <= i < count implies #[trigger] accounts_actions(m, count)[2 * i] == ("switch-"@ + digits(i as nat), ActionView::Switch(
            m.names[i],
        )) by {
            if i < c {
                assert(accounts_actions(m, count)[2 * i] == accounts_actions(m, c)[2 * i]);
            } else {
                assert(accounts_actions(m, count)[2 * i] == account_actions(m, c)[0]);
            }
        }
        assert forall|i: int| 0 <= i < count implies #[trigger] accounts_actions(m, count)[2 * i + 1] == ("delete-"@ + digits(i as nat), ActionView::Delete(
            m.names[i],
        )) by {
            if i < c {
                assert(accounts_actions(m, count)[2 * i + 1] == accounts_actions(m, c)[2 * i + 1]);
            } else {
                assert(accounts_actions(m, count)[2 * i + 1] == account_actions(m, c)[1]);
            }
        }
    }
}

/// Law: every action the menu registers is the one its entry is labelled
/// with. The entries "Refresh usage", "Save / update current login", "Open
/// accounts folder", "Open Nani", "Refresh usage every 5 minutes" (checked
/// as the periodic setting is), "Start with Windows" (checked as start-up
/// is) and "Exit Nani Switch" stand in the menu under their ids, and every
/// action registered under such an id is that entry's action; for each saved
/// account, in order, its switch and remove commands carry switching to it
/// and removing it.
pub proof fn law_menu_actions_match_labels(m: MenuInputView)
    ensures
        ({
            let items = spec_menu_items(m);
            let acts = spec_menu_actions(m);
            let fixed = seq![
                (MenuItemView::Command { id: "refresh"@, label: "Refresh usage"@, enabled: m.names.len() > 0 && !m.usage_refreshing }, ActionView::RefreshUsage),
                (MenuItemView::Command { id: "save"@, label: "Save / update current login"@, enabled: !m.busy }, ActionView::SaveCurrent),
                (MenuItemView::Command { id: "folder"@, label: "Open accounts folder"@, enabled: true }, ActionView::OpenAccounts),
                (MenuItemView::Command { id: "nani"@, label: "Open Nani"@, enabled: true }, ActionView::OpenNani),
                (MenuItemView::Check { id: "periodic-refresh"@, label: "Refresh usage every 5 minutes"@, checked: m.periodic_usage_refresh }, ActionView::TogglePeriodicUsageRefresh),
                (MenuItemView::Check { id: "startup"@, label: "Start with Windows"@, checked: m.startup_enabled }, ActionView::ToggleStartup),
                (MenuItemView::Command { id: "exit"@, label: "Exit Nani Switch"@, enabled: true }, ActionView::Exit),
            ];
            &&& forall|f: int| 0 <= f < fixed.len() ==> items.contains(#[trigger] fixed[f].0) && acts.contains(
                (item_id(fixed[f].0), fixed[f].1),
            )
            &&& forall|f: int, k: int|
                0 <= f < fixed.len() && 0 <= k < acts.len() && #[trigger] acts[k].0 == item_id(#[trigger] fixed[f].0)
                    ==> acts[k].1 == fixed[f].1
            &&& forall|i: int| 0 <= i < m.names.len() ==> acts.contains(
                (#[trigger] ("switch-"@ + digits(i as nat)), ActionView::Switch(m.names[i])),
            ) && acts.contains(("delete-"@ + digits(i as nat), ActionView::Delete(m.names[i])))
        }),
{
    reveal_strlit("refresh");
    reveal_strlit("save");
    reveal_strlit("folder");
    reveal_strlit("nani");
    reveal_strlit("periodic-refresh");
    reveal_strlit("startup");
    reveal_strlit("exit");
    reveal_strlit("switch-");
    reveal_strlit("delete-");
    let items = spec_menu_items(m);
    let acts = spec_menu_actions(m);
    let n = m.names.len();
    lemma_accounts_actions(m, n);
    let head = accounts_actions(m, n);
    let fixed = seq![
        (MenuItemView::Command { id: "refresh"@, label: "Refresh usage"@, enabled: m.names.len() > 0 && !m.usage_refreshing }, ActionView::RefreshUsage),
        (MenuItemView::Command { id: "save"@, label: "Save / update current login"@, enabled: !m.busy }, ActionView::SaveCurrent),
        (MenuItemView::Command { id: "folder"@, label: "Open accounts folder"@, enabled: true }, ActionView::OpenAccounts),
        (MenuItemView::Command { id: "nani"@, label: "Open Nani"@, enabled: true }, ActionView::OpenNani),
        (MenuItemView::Check { id: "periodic-refresh"@, label: "Refresh usage every 5 minutes"@, checked: m.periodic_usage_refresh }, ActionView::TogglePeriodicUsageRefresh),
        (MenuItemView::Check { id: "startup"@, label: "Start with Windows"@, checked: m.startup_enabled }, ActionView::ToggleStartup),
        (MenuItemView::Command { id: "exit"@, label: "Exit Nani Switch"@, enabled: true }, ActionView::Exit),
    ];
    let tail_start = items.len() - 8;
    assert forall|f: int| 0 <= f < fixed.len() implies items.contains(#[trigger] fixed[f].0) && acts.contains(
        (item_id(fixed[f].0), fixed[f].1),
    ) by {
        let j = if f < 4 { items.len() - 8 + f } else { items.len() - 7 + f };
        assert(items[j] == fixed[f].0);
        assert(acts[2 * n + f] == (item_id(fixed[f].0), fixed[f].1));
    }
    assert forall|f: int, k: int|
        0 <= f < fixed.len() && 0 <= k < acts.len() && #[trigger] acts[k].0 == item_id(#[trigger] fixed[f].0)
            implies acts[k].1 == fixed[f].1 by {
        if k < 2 * n {
            let i = k / 2;
            assert(k == 2 * i || k == 2 * i + 1);
            assert(acts[k] == head[k]);
            if k == 2 * i {
                assert(acts[k].0[1] == 'w');
                assert(acts[k].0[0] == 's');
            } else {
                assert(k == 2 * i + 1);
                assert(head[2 * i + 1].0 == "delete-"@ + digits(i as nat));
                assert(acts[k].0[0] == 'd');
            }
        } else {
            assert(acts[k] == (item_id(fixed[k - 2 * n].0), fixed[k - 2 * n].1));
            if k - 2 * n != f {
                assert(item_id(fixed[k - 2 * n].0) != item_id(fixed[f].0)) by {
                    let a = item_id(fixed[k - 2 * n].0);
                    let b = item_id(fixed[f].0);
                    assert(a.len() != b.len() || a[0] != b[0] || a[1] != b[1]);
                }
            }
        }
    }
    assert forall|i: int| 0 <= i < m.names.len() implies acts.contains(
        (#[trigger] ("switch-"@ + digits(i as nat)), ActionView::Switch(m.names[i])),
    ) && acts.contains(("delete-"@ + digits(i as nat), ActionView::Delete(m.names[i]))) by {
        assert(acts[2 * i] == head[2 * i]);
        assert(acts[2 * i + 1] == head[2 * i + 1]);
    }
}

/// The id of a menu entry (empty for labels and separators).
pub open spec fn item_id(item: MenuItemView) -> Seq<char> {
    match item {
        MenuItemView::Submenu { id, .. } => id,
        MenuItemView::Command { id, .. } => id,
        MenuItemView::Check { id, .. } => id,
        _ => Seq::empty(),
    }
}

/// Law: the second line of the menu names the saved account Nani is signed
/// in to; when Nani holds a login that is not saved it says so; it says that
/// Nani is not signed in only when Nani holds no login.
pub proof fn law_header_names_the_login(state: TrayState, seconds_since_refresh: Option<u64>, startup_enabled: bool)
    ensures
        spec_menu_items(menu_input(state, seconds_since_refresh, startup_enabled))[1] == match state.current_name {
            Some(name) => MenuItemView::Label("Current: "@ + name@),
            None => if state.current_snapshot is Some {
                MenuItemView::Label("Current account is not saved"@)
            } else {
                MenuItemView::Label("Nani is not signed in"@)
            },
        },
{
}

/// Law: when the saved accounts carry distinct names (as every saved-accounts
/// map does), at most one account's submenu is marked as the current one.
/// `build_menu` ensures it of every menu it builds.
pub proof fn law_one_check_mark(state: TrayState, seconds_since_refresh: Option<u64>, startup_enabled: bool)
    requires
        keys_unique(account_entries(state.accounts)),
    ensures
        ({
            let m = menu_input(state, seconds_since_refresh, startup_enabled);
            forall|i: int, j: int|
                0 <= i < m.names.len() && 0 <= j < m.names.len() && #[trigger] is_current(m, m.names[i])
                    && #[trigger] is_current(m, m.names[j]) ==> i == j
        }),
{
    let m = menu_input(state, seconds_since_refresh, startup_enabled);
    let es = account_entries(state.accounts);
    assert forall|i: int, j: int|
        0 <= i < m.names.len() && 0 <= j < m.names.len() && #[trigger] is_current(m, m.names[i])
            && #[trigger] is_current(m, m.names[j]) implies i == j by {
        assert(m.names[i] == es[i].0);
        assert(m.names[j] == es[j].0);
        if i < j {
            assert(es[i].0 != es[j].0);
        } else if j < i {
            assert(es[j].0 != es[i].0);
        }
    }
}

pub(crate) fn prefixed(prefix: &str, rest: &str) -> (s: String)
    ensures
        s@ == prefix@ + rest@,
{
    let mut s = prefix.to_owned();
    s.append(rest);
    s
}

fn figures_line(head: &str, left: u64, used: u64, total: u64) -> (s: String)
    ensures
        s@ == head@ + grouped_digits(left as nat) + " left ("@ + grouped_digits(used as nat) + " / "@
            + grouped_digits(total as nat) + ")"@,
{
    let mut s = prefixed(head, group_thousands(left).as_str());
    s.append(" left (");
    s.append(group_thousands(used).as_str());
    s.append(" / ");
    s.append(group_thousands(total).as_str());
    s.append(")");
    s
}

fn build_usage_section(entry: Option<&UsageState>) -> (items: Vec<SubmenuItem>)
    ensures
        submenu_view(items@) == usage_section(
            match entry {
                Some(e) => Some(e@),
                None => None,
            },
        ),
{
    let mut items: Vec<SubmenuItem> = Vec::new();
    match entry {
        Some(e) => match e.usage {
            Some(u) => {
                items.push(SubmenuItem::Label(figures_line("Tokens: ", u.tokens_left, u.tokens_used, u.tokens_total)));
                items.push(SubmenuItem::Label(figures_line("Calls: ", u.calls_left, u.calls_used, u.calls_total)));
                match u.reset {
                    Some(r) => {
                        let mut line = prefixed("Reset in: ", group_thousands(r.days).as_str());
                        line.append("d ");
                        line.append(group_thousands(r.hours).as_str());
                        line.append("h");
                        items.push(SubmenuItem::Label(line));
                    },
                    None => {},
                }
                if e.status == UsageStatus::Stale {
                    items.push(SubmenuItem::Label(prefixed("Last refresh failed: ", error_string(&e.error).as_str())));
                }
                proof {
                    assert(submenu_view(items@) =~= usage_lines(u, e@));
                }
            },
            None => {
                if e.status == UsageStatus::Error {
                    items.push(SubmenuItem::Label("Usage unavailable".to_owned()));
                    items.push(SubmenuItem::Label(error_string(&e.error)));
                } else {
                    items.push(SubmenuItem::Label("Loading usage...".to_owned()));
                }
                proof {
                    assert(submenu_view(items@) =~= usage_section(Some(e@)));
                }
            },
        },
        None => {
            items.push(SubmenuItem::Label("Loading usage...".to_owned()));
            proof {
                assert(submenu_view(items@) =~= usage_section(None));
            }
        },
    }
    items
}

/// Builds the tray menu for the state, given how long ago usage was last
/// refreshed and whether the switcher starts with Windows.
pub fn build_menu(state: &TrayState, seconds_since_refresh: Option<u64>, startup_enabled: bool) -> (menu: MenuModel)
    ensures
        items_view(menu.items@) == spec_menu_items(menu_input(*state, seconds_since_refresh, startup_enabled)),
        actions_view(menu.actions@) == spec_menu_actions(menu_input(*state, seconds_since_refresh, startup_enabled)),
        ({
            let m = menu_input(*state, seconds_since_refresh, startup_enabled);
            forall|i: int, j: int|
                0 <= i < m.names.len() && 0 <= j < m.names.len() && #[trigger] is_current(m, m.names[i])
                    && #[trigger] is_current(m, m.names[j]) ==> i == j
        }),
{
    let ghost m = menu_input(*state, seconds_since_refresh, startup_enabled);
    let mut items: Vec<MenuItem> = Vec::new();
    let mut actions: Vec<(String, Action)> = Vec::new();
    items.push(MenuItem::Label("Nani Switch".to_owned()));
    let current = match &state.current_name {
        Some(name) => prefixed("Current: ", name.as_str()),
        None => if state.current_snapshot.is_some() {
            "Current account is not saved".to_owned()
        } else {
            "Nani is not signed in".to_owned()
        },
    };
    items.push(MenuItem::Label(current));
    items.push(MenuItem::Separator);
    let names = map_keys(&state.accounts);
    let len = names.len();
    proof {
        let es = account_entries(state.accounts);
        assert(names@.map_values(|n: String| n@).len() == es.len());
        assert forall|i: int, j: int| 0 <= i < j < es.len() implies es[i].0 != es[j].0 by {
            assert(entry_names(es)[i] == es[i].0);
            assert(entry_names(es)[j] == es[j].0);
            assert(names@.map_values(|n: String| n@)[i] == names@[i]@);
            assert(names@.map_values(|n: String| n@)[j] == names@[j]@);
            assert(names@[i]@ != names@[j]@);
        }
        law_one_check_mark(*state, seconds_since_refresh, startup_enabled);
    }
    if len == 0 {
        items.push(MenuItem::Label("No saved accounts".to_owned()));
    }
    let ghost head = items_view(items@);
    assert(head =~= seq![
        MenuItemView::Label("Nani Switch"@),
        MenuItemView::Label(current_label(m)),
        MenuItemView::Separator,
    ] + (if m.names.len() == 0 {
        seq![MenuItemView::Label("No saved accounts"@)]
    } else {
        Seq::<MenuItemView>::empty()
    }));
    let mut i: usize = 0;
    while i < len
        invariant
            m == menu_input(*state, seconds_since_refresh, startup_enabled),
            len == m.names.len(),
            names@.map_values(|n: String| n@) == m.names,
            i <= len,
            items_view(items@) == head + Seq::new(i as nat, |k: int| account_submenu(m, k as nat)),
            actions_view(actions@) == accounts_actions(m, i as nat),
        decreases len - i,
    {
        let name = &names[i];
        assert(name@ == names@.map_values(|n: String| n@)[i as int]);
        let current_account = match &state.current_name {
            Some(c) => c.eq(name),
            None => false,
        };
        assert(current_account == is_current(m, name@));
        let entry = state.usage.get(name.as_str());
        assert(match entry {
            Some(e) => Some(e@),
            None => None,
        } == lookup(m.usage, name@));
        let number = decimal(i as u128);
        let mut label = if current_account {
            "✓ ".to_owned()
        } else {
            "    ".to_owned()
        };
        label.append(name.as_str());
        label.append(" - ");
        label.append(usage_summary(entry).as_str());
        let mut sub = build_usage_section(entry);
        let ghost section = submenu_view(sub@);
        sub.push(SubmenuItem::Separator);
        let switch_id = prefixed("switch-", number.as_str());
        let switch_label = if current_account {
            "Current account".to_owned()
        } else {
            prefixed("Switch to ", name.as_str())
        };
        sub.push(SubmenuItem::Command { id: switch_id.clone(), label: switch_label, enabled: !current_account && !state.busy });
        actions.push((switch_id, Action::Switch(name.clone())));
        let delete_id = prefixed("delete-", number.as_str());
        sub.push(SubmenuItem::Command { id: delete_id.clone(), label: "Remove saved account".to_owned(), enabled: !state.busy });
        actions.push((delete_id, Action::Delete(name.clone())));
        let ghost before = items_view(items@);
        proof {
            assert(submenu_view(sub@) =~= section + seq![
                SubmenuItemView::Separator,
                SubmenuItemView::Command {
                    id: "switch-"@ + digits(i as nat),
                    label: if is_current(m, name@) { "Current account"@ } else { "Switch to "@ + name@ },
                    enabled: !is_current(m, name@) && !m.busy,
                },
                SubmenuItemView::Command {
                    id: "delete-"@ + digits(i as nat),
                    label: "Remove saved account"@,
                    enabled: !m.busy,
                },
            ]);
            assert(label@ == (if is_current(m, name@) { "✓ "@ } else { "    "@ }) + name@ + " - "@ + spec_usage_summary(lookup(m.usage, name@)));
        }
        items.push(MenuItem::Submenu { id: prefixed("account-", number.as_str()), label, items: sub });
        proof {
            let submenu = items@[items@.len() - 1];
            assert(submenu@ == account_submenu(m, i as nat));
            assert(items_view(items@) =~= before.push(account_submenu(m, i as nat)));
            assert(Seq::new((i + 1) as nat, |k: int| account_submenu(m, k as nat)) =~= Seq::new(
                i as nat,
                |k: int| account_submenu(m, k as nat),
            ).push(account_submenu(m, i as nat)));
            assert(actions_view(actions@) =~= accounts_actions(m, i as nat) + account_actions(m, i as nat));
        }
        i += 1;
    }
    items.push(MenuItem::Separator);
    let usage_label = if state.usage_refreshing {
        "Refreshing usage...".to_owned()
    } else {
        match seconds_since_refresh {
            Some(seconds) => if seconds < 60 {
                "Usage updated: just now".to_owned()
            } else {
                let mut s = prefixed("Usage updated: ", decimal((seconds / 60) as u128).as_str());
                s.append(" min ago");
                s
            },
            None => "Usage has not been refreshed".to_owned(),
        }
    };
    items.push(MenuItem::Label(usage_label));
    items.push(MenuItem::Command {
        id: "refresh".to_owned(),
        label: "Refresh usage".to_owned(),
        enabled: len > 0 && !state.usage_refreshing,
    });
    actions.push(("refresh".to_owned(), Action::RefreshUsage));
    items.push(MenuItem::Command { id: "save".to_owned(), label: "Save / update current login".to_owned(), enabled: !state.busy });
    actions.push(("save".to_owned(), Action::SaveCurrent));
    items.push(MenuItem::Command { id: "folder".to_owned(), label: "Open accounts folder".to_owned(), enabled: true });
    actions.push(("folder".to_owned(), Action::OpenAccounts));
    items.push(MenuItem::Command { id: "nani".to_owned(), label: "Open Nani".to_owned(), enabled: true });
    actions.push(("nani".to_owned(), Action::OpenNani));
    items.push(MenuItem::Separator);
    items.push(MenuItem::Check {
        id: "periodic-refresh".to_owned(),
        label: "Refresh usage every 5 minutes".to_owned(),
        checked: state.periodic_usage_refresh,
    });
    actions.push(("periodic-refresh".to_owned(), Action::TogglePeriodicUsageRefresh));
    items.push(MenuItem::Check { id: "startup".to_owned(), label: "Start with Windows".to_owned(), checked: startup_enabled });
    actions.push(("startup".to_owned(), Action::ToggleStartup));
    items.push(MenuItem::Command { id: "exit".to_owned(), label: "Exit Nani Switch".to_owned(), enabled: true });
    actions.push(("exit".to_owned(), Action::Exit));
    proof {
        assert(items_view(items@) =~= spec_menu_items(m));
        assert(actions_view(actions@) =~= spec_menu_actions(m));
    }
    MenuModel { items, actions }
}

} // verus!
