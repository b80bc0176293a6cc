//! Where the switcher and Nani keep their files, as the names of the folders
//! (and file) below a base folder that the application finds: the switcher's
//! store folder or the user's home folder.
use vstd::prelude::*;

verus! {

/// The package family of the Microsoft Store build of Nani.
pub const PACKAGE_FAMILY: &'static str = "KiokuLLC.NaniTranslate_mpzwtaxj5jyfc";

/// The application user model id of the Microsoft Store build of Nani.
pub const NANI_AUMID: &'static str = "KiokuLLC.NaniTranslate_mpzwtaxj5jyfc!KiokuLLC.NaniTranslate";

pub open spec fn parts_view(parts: Seq<String>) -> Seq<Seq<char>> {
    parts.map_values(|p: String| p@)
}

fn parts_of(names: &[&str]) -> (parts: Vec<String>)
    ensures
        parts_view(parts@) == names@.map_values(|n: &str| n@),
{
    let mut parts: Vec<String> = Vec::new();
    let mut i: usize = 0;
    while i < names.len()
        invariant
            i <= names@.len(),
            parts_view(parts@) == names@.take(i as int).map_values(|n: &str| n@),
        decreases names@.len() - i,
    {
        parts.push(names[i].to_owned());
        assert(names@.take(i + 1).map_values(|n: &str| n@) =~= names@.take(i as int).map_values(|n: &str| n@).push(names@[i as int]@));
        i += 1;
    }
    assert(names@.take(names@.len() as int) =~= names@);
    parts
}

/// The saved accounts, below the store folder.
pub fn accounts_path() -> (parts: Vec<String>)
    ensures
        parts_view(parts@) == seq!["accounts.json"@],
{
    let parts = parts_of(&["accounts.json"]);
    assert(parts_view(parts@) =~= seq!["accounts.json"@]);
    parts
}

/// The log, below the store folder.
pub fn log_path() -> (parts: Vec<String>)
    ensures
        parts_view(parts@) == seq!["nani-switch.log"@],
{
    let parts = parts_of(&["nani-switch.log"]);
    assert(parts_view(parts@) =~= seq!["nani-switch.log"@]);
    parts
}

/// The settings, below the store folder.
pub fn settings_path() -> (parts: Vec<String>)
    ensures
        parts_view(parts@) == seq!["settings.json"@],
{
    let parts = parts_of(&["settings.json"]);
    assert(parts_view(parts@) =~= seq!["settings.json"@]);
    parts
}

/// Nani's user-data folder when it is installed from the Microsoft Store,
/// below the home folder.
pub open spec fn packaged_user_data() -> Seq<Seq<char>> {
    seq![
        "AppData"@,
        "Local"@,
        "Packages"@,
        PACKAGE_FAMILY@,
        "LocalCache"@,
        "Roaming"@,
        "Nani"@,
    ]
}

/// Nani's user-data folder in a classic install, below the home folder.
pub open spec fn roaming_user_data() -> Seq<Seq<char>> {
    seq!["AppData"@, "Roaming"@, "Nani"@]
}

/// The database inside a user-data folder.
pub open spec fn database_in(user_data: Seq<Seq<char>>) -> Seq<Seq<char>> {
    user_data + seq!["app.db"@, "db"@]
}

fn packaged_user_data_parts() -> (parts: Vec<String>)
    ensures
        parts_view(parts@) == packaged_user_data(),
{
    let parts = parts_of(&["AppData", "Local", "Packages", PACKAGE_FAMILY, "LocalCache", "Roaming", "Nani"]);
    assert(parts_view(parts@) =~= packaged_user_data());
    parts
}

fn roaming_user_data_parts() -> (parts: Vec<String>)
    ensures
        parts_view(parts@) == roaming_user_data(),
{
    let parts = parts_of(&["AppData", "Roaming", "Nani"]);
    assert(parts_view(parts@) =~= roaming_user_data());
    parts
}

fn database_parts(user_data: Vec<String>) -> (parts: Vec<String>)
    ensures
        parts_view(parts@) == database_in(parts_view(user_data@)),
{
    let mut parts = user_data;
    let ghost start = parts@;
    parts.push("app.db".to_owned());
    parts.push("db".to_owned());
    assert(parts_view(parts@) =~= database_in(parts_view(start)));
    parts
}

/// Where Nani's database may be, below the home folder: the Microsoft Store
/// install first, then the classic one.
pub fn db_candidates() -> (candidates: [Vec<String>; 2])
    ensures
        parts_view(candidates[0]@) == database_in(packaged_user_data()),
        parts_view(candidates[1]@) == database_in(roaming_user_data()),
{
    [database_parts(packaged_user_data_parts()), database_parts(roaming_user_data_parts())]
}

/// The position of the first candidate that exists, or of the first one when
/// none does.
pub fn first_existing(exists: &[bool]) -> (index: usize)
    ensures
        exists@.len() == 0 ==> index == 0,
        exists@.len() > 0 ==> index < exists@.len(),
        index < exists@.len() && exists@[index as int] ==> forall|k: int| 0 <= k < index ==> !exists@[k],
        !(index < exists@.len() && exists@[index as int]) ==> index == 0 && forall|k: int|
            0 <= k < exists@.len() ==> !exists@[k],
{
    let mut i: usize = 0;
    while i < exists.len()
        invariant
            i <= exists@.len(),
            forall|k: int| 0 <= k < i ==> !exists@[k],
        decreases exists@.len() - i,
    {
        if exists[i] {
            return i;
        }
        i += 1;
    }
    0
}

/// Nani's user-data folder below the home folder: the Microsoft Store one
/// when it exists, else the classic one when that exists, else the Microsoft
/// Store one.
pub fn user_data_dir(packaged_exists: bool, roaming_exists: bool) -> (parts: Vec<String>)
    ensures
        parts_view(parts@) == if !packaged_exists && roaming_exists {
            roaming_user_data()
        } else {
            packaged_user_data()
        },
{
    if first_existing(&[packaged_exists, roaming_exists]) == 1 {
        roaming_user_data_parts()
    } else {
        packaged_user_data_parts()
    }
}

} // verus!
