use nani_switch::menu::{build_menu, usage_summary, Action, MenuItem, SubmenuItem};
use nani_switch::tray::{
    apply_usage_results, apply_worker_result, handle_action, periodic_refresh_stored, start_usage_refresh, tick, Effect,
    ResetIn, Tick, TrayState, UsageFigures, UsageState, UsageStatus, WorkerResult,
};
use nani_switch::{Account, Accounts};

fn account(id: &str) -> Account {
    Account {
        stored: format!("stored-{id}"),
        token: Some(format!("token-{id}")),
        user_id: Some(id.into()),
        email: None,
        display_name: None,
        saved_at: 1,
        app_data_path: r"C:\Nani".into(),
    }
}

fn figures(tokens_left: u64, calls_left: u64) -> UsageFigures {
    UsageFigures {
        tokens_left,
        tokens_used: 60_750,
        tokens_total: 60_000,
        calls_left,
        calls_used: 74,
        calls_total: 100,
        reset: Some(ResetIn { days: 14, hours: 5 }),
    }
}

fn state_with(names: &[&str]) -> TrayState {
    let mut accounts = Accounts::new();
    for (i, name) in names.iter().enumerate() {
        accounts.insert(name.to_string(), account(&i.to_string()));
    }
    TrayState::new(accounts, None, None, true)
}

#[test]
fn refresh_starts_only_with_accounts_and_once() {
    let mut empty = state_with(&[]);
    assert!(!start_usage_refresh(&mut empty));
    let mut state = state_with(&["a", "b"]);
    assert!(start_usage_refresh(&mut state));
    assert!(state.usage_refreshing);
    assert_eq!(state.usage_of("a").unwrap().status, UsageStatus::Loading);
    assert!(!start_usage_refresh(&mut state));
}

#[test]
fn results_are_recorded_and_failures_keep_old_usage() {
    let mut state = state_with(&["a", "b", "c"]);
    start_usage_refresh(&mut state);
    let failed = apply_usage_results(
        &mut state,
        &vec![
            ("a".to_string(), Ok(figures(0, 26))),
            ("b".to_string(), Err("HTTP 500".to_string())),
            ("c".to_string(), Ok(figures(5, 5))),
        ],
    );
    assert_eq!(failed, 1);
    assert!(!state.usage_refreshing);
    assert_eq!(state.usage_of("a").unwrap().status, UsageStatus::Ready);
    assert_eq!(state.usage_of("b").unwrap().status, UsageStatus::Error);
    assert_eq!(state.usage_of("b").unwrap().error.as_deref(), Some("HTTP 500"));

    assert!(start_usage_refresh(&mut state));
    assert_eq!(state.usage_of("a").unwrap().status, UsageStatus::Refreshing);
    assert_eq!(state.usage_of("a").unwrap().usage, Some(figures(0, 26)));
    assert_eq!(state.usage_of("b").unwrap().status, UsageStatus::Loading);
    let failed = apply_usage_results(&mut state, &vec![("a".to_string(), Err("timeout".to_string()))]);
    assert_eq!(failed, 1);
    let a = state.usage_of("a").unwrap();
    assert_eq!(a.status, UsageStatus::Stale);
    assert_eq!(a.usage, Some(figures(0, 26)));
    assert_eq!(a.error.as_deref(), Some("timeout"));
}

#[test]
fn refresh_drops_entries_of_removed_accounts() {
    let mut state = state_with(&["a", "b"]);
    start_usage_refresh(&mut state);
    apply_usage_results(&mut state, &vec![("b".to_string(), Ok(figures(1, 1)))]);
    state.accounts.shift_remove("b");
    assert!(start_usage_refresh(&mut state));
    assert!(state.usage_of("b").is_none());
    assert!(state.usage_of("a").is_some());
}

#[test]
fn usage_summaries() {
    assert_eq!(usage_summary(None), "loading usage...");
    let loading = UsageState { status: UsageStatus::Loading, usage: None, error: None };
    assert_eq!(usage_summary(Some(&loading)), "loading usage...");
    let failed = UsageState { status: UsageStatus::Error, usage: None, error: Some("HTTP 401".into()) };
    assert_eq!(usage_summary(Some(&failed)), "usage error (HTTP 401)");
    let failed_silently = UsageState { status: UsageStatus::Error, usage: None, error: None };
    assert_eq!(usage_summary(Some(&failed_silently)), "usage error (unknown error)");
    let ready = UsageState { status: UsageStatus::Ready, usage: Some(figures(1234, 26)), error: None };
    assert_eq!(usage_summary(Some(&ready)), "1,234 tokens, 26 calls left");
    let stale = UsageState { status: UsageStatus::Stale, usage: Some(figures(0, 26)), error: Some("x".into()) };
    assert_eq!(usage_summary(Some(&stale)), "0 tokens, 26 calls left - stale");
    let refreshing = UsageState { status: UsageStatus::Refreshing, usage: Some(figures(0, 0)), error: None };
    assert_eq!(usage_summary(Some(&refreshing)), "0 tokens, 0 calls left - refreshing");
    let empty = UsageState { status: UsageStatus::Ready, usage: None, error: None };
    assert_eq!(usage_summary(Some(&empty)), "usage unavailable");
}

fn labels(items: &[MenuItem]) -> Vec<String> {
    items
        .iter()
        .map(|item| match item {
            MenuItem::Label(t) => t.clone(),
            MenuItem::Separator => "---".into(),
            MenuItem::Submenu { label, .. } => format!("[{label}]"),
            MenuItem::Command { label, enabled, .. } => format!("{label}{}", if *enabled { "" } else { " (off)" }),
            MenuItem::Check { label, checked, .. } => format!("{label} [{}]", if *checked { "x" } else { " " }),
        })
        .collect()
}

#[test]
fn menu_without_accounts() {
    let state = state_with(&[]);
    let menu = build_menu(&state, None, false);
    assert_eq!(
        labels(&menu.items),
        [
            "Nani Switch",
            "Nani is not signed in",
            "---",
            "No saved accounts",
            "---",
            "Usage has not been refreshed",
            "Refresh usage (off)",
            "Save / update current login",
            "Open accounts folder",
            "Open Nani",
            "---",
            "Refresh usage every 5 minutes [x]",
            "Start with Windows [ ]",
            "Exit Nani Switch",
        ]
    );
    let ids: Vec<&str> = menu.actions.iter().map(|(id, _)| id.as_str()).collect();
    assert_eq!(ids, ["refresh", "save", "folder", "nani", "periodic-refresh", "startup", "exit"]);
}

#[test]
fn menu_with_accounts_and_usage() {
    let mut state = state_with(&["work", "home"]);
    state.current_name = Some("home".into());
    start_usage_refresh(&mut state);
    apply_usage_results(
        &mut state,
        &vec![("work".to_string(), Ok(figures(0, 26))), ("home".to_string(), Err("HTTP 500".into()))],
    );
    let menu = build_menu(&state, Some(125), true);
    let all = labels(&menu.items);
    assert_eq!(all[1], "Current: home");
    assert_eq!(all[3], "[    work - 0 tokens, 26 calls left]");
    assert_eq!(all[4], "[✓ home - usage error (HTTP 500)]");
    assert_eq!(all[6], "Usage updated: 2 min ago");
    assert_eq!(all[13], "Start with Windows [x]");
    match &menu.items[3] {
        MenuItem::Submenu { id, items, .. } => {
            assert_eq!(id, "account-0");
            let texts: Vec<String> = items
                .iter()
                .map(|i| match i {
                    SubmenuItem::Label(t) => t.clone(),
                    SubmenuItem::Separator => "---".into(),
                    SubmenuItem::Command { id, label, enabled } => format!("{id}:{label}:{enabled}"),
                })
                .collect();
            assert_eq!(
                texts,
                [
                    "Tokens: 0 left (60,750 / 60,000)",
                    "Calls: 26 left (74 / 100)",
                    "Reset in: 14d 5h",
                    "---",
                    "switch-0:Switch to work:true",
                    "delete-0:Remove saved account:true",
                ]
            );
        },
        other => panic!("unexpected item {other:?}"),
    }
    match &menu.items[4] {
        MenuItem::Submenu { items, .. } => {
            assert!(matches!(&items[0], SubmenuItem::Label(t) if t == "Usage unavailable"));
            assert!(matches!(&items[1], SubmenuItem::Label(t) if t == "HTTP 500"));
            assert!(
                matches!(&items[3], SubmenuItem::Command { label, enabled: false, .. } if label == "Current account")
            );
        },
        other => panic!("unexpected item {other:?}"),
    }
    assert!(matches!(&menu.actions[0], (id, Action::Switch(n)) if id == "switch-0" && n == "work"));
    assert!(matches!(&menu.actions[3], (id, Action::Delete(n)) if id == "delete-1" && n == "home"));
    let just_now = build_menu(&state, Some(59), true);
    assert_eq!(labels(&just_now.items)[6], "Usage updated: just now");
}

#[test]
fn stale_usage_shows_the_failure() {
    let mut state = state_with(&["a"]);
    start_usage_refresh(&mut state);
    apply_usage_results(&mut state, &vec![("a".to_string(), Ok(figures(1, 1)))]);
    start_usage_refresh(&mut state);
    apply_usage_results(&mut state, &vec![("a".to_string(), Err("offline".into()))]);
    let menu = build_menu(&state, Some(0), false);
    match &menu.items[3] {
        MenuItem::Submenu { items, .. } => {
            assert!(matches!(&items[3], SubmenuItem::Label(t) if t == "Last refresh failed: offline"));
        },
        other => panic!("unexpected item {other:?}"),
    }
}

#[test]
fn switching_waits_for_other_work() {
    let mut state = state_with(&["a", "b"]);
    state.current_name = Some("a".into());
    assert!(matches!(handle_action(&mut state, Action::Switch("a".into())), Effect::Nothing));
    assert!(!state.busy);
    assert!(matches!(handle_action(&mut state, Action::Switch("b".into())), Effect::SwitchAccount(n) if n == "b"));
    assert!(state.busy);
    assert!(matches!(handle_action(&mut state, Action::SaveCurrent), Effect::Nothing));
    assert!(matches!(handle_action(&mut state, Action::Delete("b".into())), Effect::Nothing));
    let report = apply_worker_result(&mut state, WorkerResult::Switch { name: "b".into(), result: Ok(()) });
    assert!(!state.busy);
    assert_eq!(report.logs.len(), 1);
    assert_eq!(report.logs[0].message, "Switched to account b");
    assert!(report.notice.is_none());
    assert!(matches!(handle_action(&mut state, Action::SaveCurrent), Effect::SaveCurrentLogin));
    assert!(state.busy);
}

#[test]
fn other_actions_are_handed_over() {
    let mut state = state_with(&["a"]);
    assert!(matches!(handle_action(&mut state, Action::Delete("a".into())), Effect::ConfirmDelete(n) if n == "a"));
    assert!(matches!(handle_action(&mut state, Action::RefreshUsage), Effect::FetchUsage));
    assert!(matches!(handle_action(&mut state, Action::RefreshUsage), Effect::Nothing));
    assert!(matches!(handle_action(&mut state, Action::TogglePeriodicUsageRefresh), Effect::StorePeriodicRefresh(false)));
    assert!(matches!(handle_action(&mut state, Action::OpenAccounts), Effect::OpenAccountsFolder));
    assert!(matches!(handle_action(&mut state, Action::OpenNani), Effect::LaunchNani));
    assert!(matches!(handle_action(&mut state, Action::ToggleStartup), Effect::ToggleStartup));
    assert!(matches!(handle_action(&mut state, Action::Exit), Effect::Exit));
}

#[test]
fn periodic_setting_can_start_a_due_refresh() {
    let mut state = state_with(&["a"]);
    state.periodic_usage_refresh = false;
    assert!(periodic_refresh_stored(&mut state, true, 300));
    assert!(state.periodic_usage_refresh && state.usage_refreshing);
    let mut idle = state_with(&["a"]);
    assert!(!periodic_refresh_stored(&mut idle, true, 299));
    assert!(!periodic_refresh_stored(&mut idle, false, u64::MAX));
    assert!(!idle.periodic_usage_refresh);
}

#[test]
fn ticks_reload_every_fifteen_seconds_and_refresh_every_five_minutes() {
    let mut state = state_with(&["a"]);
    assert_eq!(tick(&state, 15, 300), Tick { reload_current: true, refresh_usage: true });
    assert_eq!(tick(&state, 14, 299), Tick { reload_current: false, refresh_usage: false });
    assert_eq!(tick(&state, 0, 301), Tick { reload_current: false, refresh_usage: true });
    state.busy = true;
    assert_eq!(tick(&state, 60, 0), Tick { reload_current: false, refresh_usage: false });
    state.periodic_usage_refresh = false;
    assert_eq!(tick(&state, 60, 3_600), Tick { reload_current: false, refresh_usage: false });
}

#[test]
fn start_up_refreshes_usage_of_saved_accounts() {
    let mut accounts = Accounts::new();
    accounts.insert("a".into(), account("1"));
    accounts.insert("b".into(), account("2"));
    let (state, fetch) = TrayState::start(accounts, None, Some("a".into()), false);
    assert!(fetch);
    assert!(state.usage_refreshing && !state.busy && !state.periodic_usage_refresh);
    assert_eq!(state.current_name.as_deref(), Some("a"));
    for name in ["a", "b"] {
        let entry = state.usage_of(name).unwrap();
        assert_eq!(entry.status, UsageStatus::Loading);
        assert!(entry.usage.is_none());
    }
    let (empty, fetch) = TrayState::start(Accounts::new(), None, None, true);
    assert!(!fetch);
    assert!(!empty.usage_refreshing);
    assert!(empty.usage_of("a").is_none());
}

#[test]
fn worker_results_say_what_follows() {
    let mut state = state_with(&["a"]);
    start_usage_refresh(&mut state);
    let usage = apply_worker_result(&mut state, WorkerResult::Usage(vec![("a".into(), Ok(figures(1, 2)))]));
    assert!(!usage.pause_before_reload && !usage.reload_accounts && !usage.refresh_usage);
    for result in [Ok(()), Err("locked".to_string())] {
        let switch = apply_worker_result(&mut state, WorkerResult::Switch { name: "a".into(), result });
        assert!(switch.pause_before_reload && switch.reload_accounts && !switch.refresh_usage);
    }
    for result in [Ok(("a".to_string(), false)), Err("no login".to_string())] {
        let save = apply_worker_result(&mut state, WorkerResult::Save(result));
        assert!(!save.pause_before_reload && save.reload_accounts && save.refresh_usage);
    }
}

#[test]
fn worker_reports() {
    let mut state = state_with(&["a", "b"]);
    start_usage_refresh(&mut state);
    let report = apply_worker_result(
        &mut state,
        WorkerResult::Usage(vec![("a".into(), Err("HTTP 500".into())), ("b".into(), Ok(figures(1, 2)))]),
    );
    let lines: Vec<(bool, &str)> = report.logs.iter().map(|l| (l.error, l.message.as_str())).collect();
    assert_eq!(
        lines,
        [(true, "Usage refresh failed for a: HTTP 500"), (false, "Usage refresh finished with 1 failure(s)")]
    );
    state.busy = true;
    let report = apply_worker_result(&mut state, WorkerResult::Switch { name: "a".into(), result: Err("locked".into()) });
    assert!(!state.busy);
    assert_eq!(report.logs[0].message, "Failed to switch to a: locked");
    let notice = report.notice.unwrap();
    assert!(notice.error);
    assert_eq!(notice.title, "Account switch failed");
    assert_eq!(notice.message, "locked");
    let saved = apply_worker_result(&mut state, WorkerResult::Save(Ok(("a".into(), true))));
    assert_eq!(saved.notice.unwrap().message, "Updated a.");
    let new = apply_worker_result(&mut state, WorkerResult::Save(Ok(("c".into(), false))));
    let notice = new.notice.unwrap();
    assert_eq!((notice.error, notice.title.as_str(), notice.message.as_str()), (false, "Nani account saved", "Saved as c."));
    let failed = apply_worker_result(&mut state, WorkerResult::Save(Err("No account is currently signed in to Nani.".into())));
    assert_eq!(failed.logs[0].message, "Could not save account: No account is currently signed in to Nani.");
    assert_eq!(failed.notice.unwrap().title, "Could not save account");
}
