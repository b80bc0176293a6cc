use nani_switch::paths::{accounts_path, db_candidates, first_existing, log_path, settings_path, user_data_dir};

#[test]
fn store_files() {
    assert_eq!(accounts_path(), ["accounts.json"]);
    assert_eq!(log_path(), ["nani-switch.log"]);
    assert_eq!(settings_path(), ["settings.json"]);
}

#[test]
fn database_candidates_prefer_the_store_install() {
    let [packaged, roaming] = db_candidates();
    assert_eq!(
        packaged,
        ["AppData", "Local", "Packages", "KiokuLLC.NaniTranslate_mpzwtaxj5jyfc", "LocalCache", "Roaming", "Nani", "app.db", "db"]
    );
    assert_eq!(roaming, ["AppData", "Roaming", "Nani", "app.db", "db"]);
}

#[test]
fn user_data_folder_is_the_first_that_exists() {
    let packaged = ["AppData", "Local", "Packages", "KiokuLLC.NaniTranslate_mpzwtaxj5jyfc", "LocalCache", "Roaming", "Nani"];
    assert_eq!(user_data_dir(true, true), packaged);
    assert_eq!(user_data_dir(false, true), ["AppData", "Roaming", "Nani"]);
    assert_eq!(user_data_dir(false, false), packaged);
    assert_eq!(first_existing(&[false, false, true]), 2);
    assert_eq!(first_existing(&[]), 0);
}
