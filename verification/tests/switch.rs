use nani_switch::nani::{switch_to_account, SwitchEvent, SwitchPhase, SwitchStep};
use nani_switch::store::StoreError;
use nani_switch::{Account, Accounts};

fn accounts() -> Accounts {
    let mut accounts = Accounts::new();
    accounts.insert(
        "work".into(),
        Account {
            stored: "stored".into(),
            token: Some("tok-work".into()),
            user_id: None,
            email: None,
            display_name: None,
            saved_at: 1,
            app_data_path: r"C:\Nani".into(),
        },
    );
    accounts
}

#[test]
fn switch_when_nani_is_not_running() {
    let accounts = accounts();
    let mut switch = switch_to_account(&accounts, "work").unwrap();
    assert_eq!(switch.phase(), SwitchPhase::CheckingRunning);
    assert!(matches!(switch.next(SwitchEvent::Running(false)), SwitchStep::WriteToken(t) if t == "tok-work"));
    assert!(matches!(switch.next(SwitchEvent::TokenWritten(Ok(()))), SwitchStep::ClearLocalStorage));
    assert!(matches!(switch.next(SwitchEvent::StorageCleared), SwitchStep::Launch));
    assert!(matches!(switch.next(SwitchEvent::Launched(Ok(()))), SwitchStep::Finish(Ok(()))));
    assert_eq!(switch.phase(), SwitchPhase::Done);
}

#[test]
fn switch_closes_nani_and_waits() {
    let accounts = accounts();
    let mut switch = switch_to_account(&accounts, "work").unwrap();
    assert!(matches!(switch.next(SwitchEvent::Running(true)), SwitchStep::CloseNani));
    assert!(matches!(switch.next(SwitchEvent::Waited { waited_ms: 0 }), SwitchStep::PollRunning));
    assert!(matches!(switch.next(SwitchEvent::Running(true)), SwitchStep::Pause));
    assert!(matches!(switch.next(SwitchEvent::Waited { waited_ms: 9_999 }), SwitchStep::PollRunning));
    assert!(matches!(switch.next(SwitchEvent::Running(false)), SwitchStep::WriteToken(_)));
}

#[test]
fn switch_gives_up_after_ten_seconds() {
    let accounts = accounts();
    let mut switch = switch_to_account(&accounts, "work").unwrap();
    switch.next(SwitchEvent::Running(true));
    switch.next(SwitchEvent::Waited { waited_ms: 0 });
    switch.next(SwitchEvent::Running(true));
    assert!(matches!(
        switch.next(SwitchEvent::Waited { waited_ms: 10_000 }),
        SwitchStep::Finish(Err(m)) if m == "Nani did not exit within 10 seconds."
    ));
}

#[test]
fn switch_stops_on_a_failed_write() {
    let accounts = accounts();
    let mut switch = switch_to_account(&accounts, "work").unwrap();
    switch.next(SwitchEvent::Running(false));
    assert!(matches!(
        switch.next(SwitchEvent::TokenWritten(Err("database is locked".into()))),
        SwitchStep::Finish(Err(m)) if m == "database is locked"
    ));
}

#[test]
fn switch_needs_a_saved_account() {
    assert!(matches!(switch_to_account(&accounts(), "home"), Err(StoreError::AccountNotFound(n)) if n == "home"));
}

#[test]
fn out_of_order_events_end_the_switch() {
    let accounts = accounts();
    let mut switch = switch_to_account(&accounts, "work").unwrap();
    assert!(matches!(
        switch.next(SwitchEvent::StorageCleared),
        SwitchStep::Finish(Err(m)) if m == "the switch was interrupted"
    ));
    assert_eq!(switch.phase(), SwitchPhase::Done);
    assert!(matches!(switch.next(SwitchEvent::Running(false)), SwitchStep::Finish(Err(_))));
    assert_eq!(switch.phase(), SwitchPhase::Done);
}

#[test]
fn a_finished_switch_does_nothing_more() {
    let accounts = accounts();
    let mut switch = switch_to_account(&accounts, "work").unwrap();
    switch.next(SwitchEvent::Running(true));
    assert!(matches!(
        switch.next(SwitchEvent::Waited { waited_ms: 12_000 }),
        SwitchStep::Finish(Err(m)) if m == "Nani did not exit within 10 seconds."
    ));
    assert!(matches!(
        switch.next(SwitchEvent::Running(false)),
        SwitchStep::Finish(Err(m)) if m == "the switch was interrupted"
    ));
    assert!(matches!(switch.next(SwitchEvent::StorageCleared), SwitchStep::Finish(Err(_))));
}
