use nani_switch::dialog::{confirm_delete_message, wide};
use nani_switch::logger;
use nani_switch::nani::tasklist_lists_nani;
use nani_switch::settings::{enabled_by_default, Settings};
use nani_switch::startup::is_enabled;

#[test]
fn wide_strings_are_utf16_with_a_nul() {
    assert_eq!(wide("Ok"), vec![79, 107, 0]);
    let text = "é😀";
    let mut expected: Vec<u16> = text.encode_utf16().collect();
    expected.push(0);
    assert_eq!(wide(text), expected);
    assert_eq!(wide(""), vec![0]);
}

#[test]
fn delete_question_names_the_account() {
    assert_eq!(
        confirm_delete_message("work"),
        "Remove \"work\" from Nani Switch?\n\nThis does not delete the Nani account or its server data."
    );
}

#[test]
fn log_lines_carry_time_and_level() {
    assert_eq!(logger::info("Nani Switch started", 1700000000), "1700000000 [info] Nani Switch started\n");
    assert_eq!(logger::error("boom", 5), "5 [error] boom\n");
}

#[test]
fn tasklist_output_is_searched_for_nani() {
    assert!(tasklist_lists_nani(b"\"Nani.exe\",\"1234\",\"Console\",\"1\",\"120,000 K\"\r\n"));
    assert!(tasklist_lists_nani(b"NANI.EXE"));
    assert!(!tasklist_lists_nani(b"INFO: No tasks are running which match the specified criteria.\r\n"));
    assert!(tasklist_lists_nani(b"\xff\xfenani.exe"));
    assert!(!tasklist_lists_nani(b""));
}

#[test]
fn startup_entry_must_name_the_executable() {
    let exe = r"C:\Apps\Nani Switch.exe";
    assert!(is_enabled(Some("\"c:\\apps\\nani switch.exe\""), exe, None));
    assert!(!is_enabled(Some("\"C:\\Other\\app.exe\""), exe, None));
    assert!(!is_enabled(None, exe, None));
}

#[test]
fn startup_approval_record_is_honoured() {
    let exe = r"C:\Apps\nani-switch.exe";
    let command = "\"C:\\Apps\\nani-switch.exe\"";
    assert!(is_enabled(Some(command), exe, Some(&[0x02, 0, 0])));
    assert!(is_enabled(Some(command), exe, Some(&[])));
    assert!(!is_enabled(Some(command), exe, Some(&[0x03, 0, 0])));
}

#[test]
fn periodic_refresh_is_on_by_default() {
    assert!(enabled_by_default());
    assert!(Settings::default().periodic_usage_refresh);
}
