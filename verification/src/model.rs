use vstd::prelude::*;

verus! {

/// The mathematical value of an optional string.
pub open spec fn opt_view(o: Option<String>) -> Option<Seq<char>> {
    match o {
        Some(s) => Some(s@),
        None => None,
    }
}

/// A saved Nani login: the encrypted access token as Nani stores it, the
/// token in clear when it is known, and the profile fields read at save time.
#[derive(Clone, Debug)]
pub struct Account {
    pub stored: String,
    pub token: Option<String>,
    pub user_id: Option<String>,
    pub email: Option<String>,
    pub display_name: Option<String>,
    pub saved_at: i64,
    pub app_data_path: String,
}

/// The view of an [`Account`]: every string taken as its characters.
pub struct AccountView {
    pub stored: Seq<char>,
    pub token: Option<Seq<char>>,
    pub user_id: Option<Seq<char>>,
    pub email: Option<Seq<char>>,
    pub display_name: Option<Seq<char>>,
    pub saved_at: i64,
    pub app_data_path: Seq<char>,
}

impl View for Account {
    type V = AccountView;

    open spec fn view(&self) -> AccountView {
        AccountView {
            stored: self.stored@,
            token: opt_view(self.token),
            user_id: opt_view(self.user_id),
            email: opt_view(self.email),
            display_name: opt_view(self.display_name),
            saved_at: self.saved_at,
            app_data_path: self.app_data_path@,
        }
    }
}

/// The login that Nani currently holds, with its access token in clear.
#[derive(Clone, Debug)]
pub struct CurrentSnapshot {
    pub account: Account,
    pub token: String,
}

pub struct SnapshotView {
    pub account: AccountView,
    pub token: Seq<char>,
}

impl View for CurrentSnapshot {
    type V = SnapshotView;

    open spec fn view(&self) -> SnapshotView {
        SnapshotView { account: self.account@, token: self.token@ }
    }
}

/// Whether two optional strings hold the same characters.
pub fn opt_str_eq(a: &Option<String>, b: &Option<String>) -> (r: bool)
    ensures
        r == (opt_view(*a) == opt_view(*b)),
{
    match (a, b) {
        (Some(x), Some(y)) => x.eq(y),
        (None, None) => true,
        _ => false,
    }
}

} // verus!
