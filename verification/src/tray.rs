//! The state of the tray application and the decisions it takes on it: what
//! start-up does, when a usage refresh starts and what its results do to the
//! usage shown for each account, what is due as time passes, what a menu
//! action sets off, and what a finished background task reports and sets off.
use vstd::hash_map::StringHashMap;
use vstd::prelude::*;

use crate::account_map::{account_entries, entry_names, map_get_index, map_len, Accounts};
use crate::model::{opt_view, CurrentSnapshot};
use crate::menu::{prefixed, Action, ActionView};
use crate::text::{decimal, digits};

verus! {

/// Where the usage shown for an account stands.
#[derive(Clone, Copy, Debug, PartialEq, Eq, Structural)]
pub enum UsageStatus {
    Loading,
    Refreshing,
    Ready,
    Error,
    Stale,
}

/// Days and hours until the monthly usage resets, in whole units.
#[derive(Clone, Copy, Debug, PartialEq, Eq, Structural)]
pub struct ResetIn {
    pub days: u64,
    pub hours: u64,
}

/// An account's monthly usage as the menu shows it, each figure in whole units.
#[derive(Clone, Copy, Debug, PartialEq, Eq, Structural)]
pub struct UsageFigures {
    pub tokens_left: u64,
    pub tokens_used: u64,
    pub tokens_total: u64,
    pub calls_left: u64,
    pub calls_used: u64,
    pub calls_total: u64,
    pub reset: Option<ResetIn>,
}

/// The usage known for one account.
#[derive(Clone, Debug)]
pub struct UsageState {
    pub status: UsageStatus,
    pub usage: Option<UsageFigures>,
    pub error: Option<String>,
}

pub struct UsageStateView {
    pub status: UsageStatus,
    pub usage: Option<UsageFigures>,
    pub error: Option<Seq<char>>,
}

impl View for UsageState {
    type V = UsageStateView;

    open spec fn view(&self) -> UsageStateView {
        UsageStateView { status: self.status, usage: self.usage, error: opt_view(self.error) }
    }
}

/// The usage known for each account, by account name.
pub open spec fn usage_view(m: Map<Seq<char>, UsageState>) -> Map<Seq<char>, UsageStateView> {
    m.map_values(|v: UsageState| v@)
}

/// What the tray application knows and shows.
pub struct TrayState {
    pub accounts: Accounts,
    pub current_snapshot: Option<CurrentSnapshot>,
    pub current_name: Option<String>,
    pub usage: StringHashMap<UsageState>,
    pub usage_refreshing: bool,
    pub periodic_usage_refresh: bool,
    pub busy: bool,
}

impl TrayState {
    /// The state on start-up: the saved accounts, the login Nani holds and
    /// the name it is saved under, no usage known, nothing running.
    pub fn new(
        accounts: Accounts,
        current_snapshot: Option<CurrentSnapshot>,
        current_name: Option<String>,
        periodic_usage_refresh: bool,
    ) -> (state: TrayState)
        ensures
            state.accounts == accounts,
            state.current_snapshot == current_snapshot,
            state.current_name == current_name,
            state.usage@ == Map::<Seq<char>, UsageState>::empty(),
            !state.usage_refreshing,
            state.periodic_usage_refresh == periodic_usage_refresh,
            !state.busy,
    {
        TrayState {
            accounts,
            current_snapshot,
            current_name,
            usage: StringHashMap::new(),
            usage_refreshing: false,
            periodic_usage_refresh,
            busy: false,
        }
    }

    /// The state on start-up with the first usage refresh started: the
    /// saved accounts, the login Nani holds and the name it is saved under,
    /// nothing running, and every saved account loading its usage. Returns
    /// the state and whether usage is to be fetched, which it is whenever an
    /// account is saved.
    pub fn start(
        accounts: Accounts,
        current_snapshot: Option<CurrentSnapshot>,
        current_name: Option<String>,
        periodic_usage_refresh: bool,
    ) -> (res: (TrayState, bool))
        ensures
            res.1 == (account_entries(accounts).len() > 0),
            res.0.accounts == accounts,
            res.0.current_snapshot == current_snapshot,
            res.0.current_name == current_name,
            res.0.periodic_usage_refresh == periodic_usage_refresh,
            !res.0.busy,
            res.0.usage_refreshing == res.1,
            usage_view(res.0.usage@) == refreshing_board(
                Map::<Seq<char>, UsageStateView>::empty(),
                entry_names(account_entries(accounts)),
            ),
    {
        let mut state = TrayState::new(accounts, current_snapshot, current_name, periodic_usage_refresh);
        let ghost names = entry_names(account_entries(accounts));
        proof {
            assert(usage_view(state.usage@) =~= Map::<Seq<char>, UsageStateView>::empty());
        }
        let fetch = start_usage_refresh(&mut state);
        proof {
            if !fetch {
                assert(names.len() == 0);
                assert(refreshing_board(Map::<Seq<char>, UsageStateView>::empty(), names) =~= Map::<
                    Seq<char>,
                    UsageStateView,
                >::empty());
            }
        }
        (state, fetch)
    }

    /// The usage known for the account named `name`.
    pub fn usage_of(&self, name: &str) -> (entry: Option<&UsageState>)
        ensures
            match entry {
                Some(e) => self.usage@.contains_key(name@) && *e == self.usage@[name@],
                None => !self.usage@.contains_key(name@),
            },
    {
        self.usage.get(name)
    }
}

/// The entry an account gets when a refresh starts: the usage known so far,
/// marked as refreshing, or loading when none is known.
pub open spec fn refreshing_entry(prev: Map<Seq<char>, UsageStateView>, name: Seq<char>) -> UsageStateView {
    if prev.contains_key(name) && prev[name].usage is Some {
        UsageStateView { status: UsageStatus::Refreshing, usage: prev[name].usage, error: None }
    } else {
        UsageStateView { status: UsageStatus::Loading, usage: None, error: None }
    }
}

/// The usage board when a refresh starts: one entry per saved account.
pub open spec fn refreshing_board(prev: Map<Seq<char>, UsageStateView>, names: Seq<Seq<char>>) -> Map<
    Seq<char>,
    UsageStateView,
> {
    Map::new(|n: Seq<char>| names.contains(n), |n: Seq<char>| refreshing_entry(prev, n))
}

/// A tray state that differs from `old` at most in its usage board and
/// whether a refresh is under way.
pub open spec fn same_except_usage(new: TrayState, old: TrayState) -> bool {
    &&& new.accounts == old.accounts
    &&& new.current_snapshot == old.current_snapshot
    &&& new.current_name == old.current_name
    &&& new.periodic_usage_refresh == old.periodic_usage_refresh
    &&& new.busy == old.busy
}

/// Starts a usage refresh unless one is under way or no account is saved:
/// every saved account gets an entry, which keeps the usage known so far.
/// Returns whether a refresh was started (the caller then fetches usage).
pub fn start_usage_refresh(state: &mut TrayState) -> (started: bool)
    ensures
        started == !(old(state).usage_refreshing || account_entries(old(state).accounts).len() == 0),
        !started ==> *final(state) == *old(state),
        started ==> {
            &&& final(state).usage_refreshing
            &&& same_except_usage(*final(state), *old(state))
            &&& usage_view(final(state).usage@) == refreshing_board(
                usage_view(old(state).usage@),
                entry_names(account_entries(old(state).accounts)),
            )
        },
{
    let len = map_len(&state.accounts);
    if state.usage_refreshing || len == 0 {
        return false;
    }
    let ghost prev = usage_view(state.usage@);
    let ghost names = entry_names(account_entries(state.accounts));
    let mut fresh: StringHashMap<UsageState> = StringHashMap::new();
    let mut i: usize = 0;
    while i < len
        invariant
            *state == *old(state),
            len == account_entries(state.accounts).len(),
            names == entry_names(account_entries(state.accounts)),
            prev == usage_view(state.usage@),
            i <= len,
            usage_view(fresh@) == refreshing_board(prev, names.take(i as int)),
        decreases len - i,
    {
        let name = map_get_index(&state.accounts, i).unwrap().0;
        let entry = match state.usage.get(name.as_str()) {
            Some(previous) => match previous.usage {
                Some(figures) => UsageState {
                    status: UsageStatus::Refreshing,
                    usage: Some(figures),
                    error: None,
                },
                None => UsageState { status: UsageStatus::Loading, usage: None, error: None },
            },
            None => UsageState { status: UsageStatus::Loading, usage: None, error: None },
        };
        let ghost before = fresh@;
        fresh.insert(name.clone(), entry);
        proof {
            assert(names.take(i + 1) =~= names.take(i as int).push(names[i as int]));
            assert(names[i as int] == name@);
            assert(entry@ == refreshing_entry(prev, name@));
            let longer = names.take(i + 1);
            let shorter = names.take(i as int);
            assert forall|n: Seq<char>| longer.contains(n) <==> (shorter.contains(n) || n == name@) by {
                if longer.contains(n) {
                    let k = choose|k: int| 0 <= k < longer.len() && #[trigger] longer[k] == n;
                    if k < i {
                        assert(shorter[k] == n);
                    }
                }
                if shorter.contains(n) {
                    let k = choose|k: int| 0 <= k < shorter.len() && #[trigger] shorter[k] == n;
                    assert(longer[k] == n);
                }
                if n == name@ {
                    assert(longer[i as int] == n);
                }
            }
            assert(fresh@ == before.insert(name@, entry));
            assert(usage_view(fresh@) =~= usage_view(before).insert(name@, entry@));
            assert(usage_view(fresh@) =~= refreshing_board(prev, names.take(i + 1)));
        }
        i += 1;
    }
    proof {
        assert(names.take(len as int) =~= names);
    }
    state.usage = fresh;
    state.usage_refreshing = true;
    true
}

/// Law: once a refresh starts, the usage board has an entry for every saved
/// account and for no other name; each entry keeps the usage known before.
pub proof fn law_refresh_covers_saved_accounts(prev: Map<Seq<char>, UsageStateView>, names: Seq<Seq<char>>)
    ensures
        refreshing_board(prev, names).dom() == names.to_set(),
        forall|n: Seq<char>| #[trigger] names.contains(n) ==> refreshing_board(prev, names)[n].usage == (if prev.contains_key(n) {
            prev[n].usage
        } else {
            None
        }),
{
    assert(refreshing_board(prev, names).dom() =~= names.to_set());
}

/// Law: a failed fetch never discards the usage known for the account: it is
/// kept and marked stale, or, when none was known, the error is shown.
pub proof fn law_failed_fetch_keeps_usage(m: Map<Seq<char>, UsageStateView>, name: Seq<char>, error: Seq<char>)
    ensures
        ({
            let after = apply_fetch_result(m, (name, Err(error)));
            let before = if m.contains_key(name) { m[name].usage } else { None };
            &&& after[name].usage == before
            &&& after[name].error == Some(error)
            &&& after[name].status == if before is Some { UsageStatus::Stale } else { UsageStatus::Error }
            &&& forall|other: Seq<char>| other != name && m.contains_key(other) ==> after.contains_key(other) && #[trigger] after[other] == m[other]
        }),
{
}

/// The usage fetched for an account, or why it could not be fetched.
pub open spec fn fetch_result_view(r: (String, Result<UsageFigures, String>)) -> (Seq<char>, Result<UsageFigures, Seq<char>>) {
    (r.0@, match r.1 {
        Ok(u) => Ok(u),
        Err(e) => Err(e@),
    })
}

pub open spec fn fetch_results_view(rs: Seq<(String, Result<UsageFigures, String>)>) -> Seq<(Seq<char>, Result<UsageFigures, Seq<char>>)> {
    rs.map_values(|r: (String, Result<UsageFigures, String>)| fetch_result_view(r))
}

/// The board after one fetch result: fetched usage is ready; a failure keeps
/// the usage known before, then stale, else shows the error.
pub open spec fn apply_fetch_result(
    m: Map<Seq<char>, UsageStateView>,
    r: (Seq<char>, Result<UsageFigures, Seq<char>>),
) -> Map<Seq<char>, UsageStateView> {
    match r.1 {
        Ok(u) => m.insert(r.0, UsageStateView { status: UsageStatus::Ready, usage: Some(u), error: None }),
        Err(e) => {
            let previous = if m.contains_key(r.0) {
                m[r.0].usage
            } else {
                None
            };
            m.insert(
                r.0,
                UsageStateView {
                    status: if previous is Some {
                        UsageStatus::Stale
                    } else {
                        UsageStatus::Error
                    },
                    usage: previous,
                    error: Some(e),
                },
            )
        },
    }
}

/// The board after the fetch results, in order.
pub open spec fn apply_fetch_results(
    m: Map<Seq<char>, UsageStateView>,
    rs: Seq<(Seq<char>, Result<UsageFigures, Seq<char>>)>,
) -> Map<Seq<char>, UsageStateView>
    decreases rs.len(),
{
    if rs.len() == 0 {
        m
    } else {
        apply_fetch_result(apply_fetch_results(m, rs.drop_last()), rs.last())
    }
}

/// Law: a successful fetch replaces whatever the board held for the account
/// with the fetched usage, ready and without error; other accounts' entries
/// are untouched.
pub proof fn law_fetched_usage_is_ready(m: Map<Seq<char>, UsageStateView>, name: Seq<char>, u: UsageFigures)
    ensures
        ({
            let after = apply_fetch_result(m, (name, Ok(u)));
            &&& after.contains_key(name)
            &&& after[name] == UsageStateView { status: UsageStatus::Ready, usage: Some(u), error: None }
            &&& after.dom() == m.dom().insert(name)
            &&& forall|other: Seq<char>| other != name && m.contains_key(other) ==> #[trigger] after[other] == m[other]
        }),
{
    assert(apply_fetch_result(m, (name, Ok(u))).dom() =~= m.dom().insert(name));
}

/// Law: after a whole refresh, an account whose last result was a successful
/// fetch shows exactly the fetched usage, ready and without error, whatever
/// the board held before.
pub proof fn law_refresh_shows_last_fetch(
    m: Map<Seq<char>, UsageStateView>,
    rs: Seq<(Seq<char>, Result<UsageFigures, Seq<char>>)>,
    k: int,
    u: UsageFigures,
)
    requires
        0 <= k < rs.len(),
        rs[k] == (rs[k].0, Ok::<UsageFigures, Seq<char>>(u)),
        forall|j: int| k < j < rs.len() ==> (#[trigger] rs[j]).0 != rs[k].0,
    ensures
        apply_fetch_results(m, rs).contains_key(rs[k].0),
        apply_fetch_results(m, rs)[rs[k].0] == (UsageStateView {
            status: UsageStatus::Ready,
            usage: Some(u),
            error: None,
        }),
    decreases rs.len(),
{
    let name = rs[k].0;
    let shorter = rs.drop_last();
    if k == rs.len() - 1 {
        law_fetched_usage_is_ready(apply_fetch_results(m, shorter), name, u);
    } else {
        assert(shorter[k] == rs[k]);
        assert forall|j: int| k < j < shorter.len() implies (#[trigger] shorter[j]).0 != shorter[k].0 by {
            assert(shorter[j] == rs[j]);
        }
        law_refresh_shows_last_fetch(m, shorter, k, u);
        let before = apply_fetch_results(m, shorter);
        let last = rs.last();
        assert(last == rs[rs.len() - 1]);
        assert(last.0 != name);
        assert(apply_fetch_result(before, last).contains_key(name));
        assert(apply_fetch_result(before, last)[name] == before[name]);
    }
}

/// The number of failed fetches.
pub open spec fn failure_count(rs: Seq<(Seq<char>, Result<UsageFigures, Seq<char>>)>) -> nat
    decreases rs.len(),
{
    if rs.len() == 0 {
        0
    } else {
        failure_count(rs.drop_last()) + if rs.last().1 is Err {
            1nat
        } else {
            0nat
        }
    }
}

/// Records the results of a usage refresh and ends it; returns the number of
/// accounts whose usage could not be fetched.
pub fn apply_usage_results(state: &mut TrayState, results: &Vec<(String, Result<UsageFigures, String>)>) -> (failed: u64)
    ensures
        failed == failure_count(fetch_results_view(results@)),
        !final(state).usage_refreshing,
        same_except_usage(*final(state), *old(state)),
        usage_view(final(state).usage@) == apply_fetch_results(usage_view(old(state).usage@), fetch_results_view(results@)),
{
    let ghost start = usage_view(state.usage@);
    let ghost rs = fetch_results_view(results@);
    let ghost old_state = *state;
    let mut failed: u64 = 0;
    let mut i: usize = 0;
    while i < results.len()
        invariant
            rs == fetch_results_view(results@),
            i <= results.len(),
            failed == failure_count(rs.take(i as int)),
            failed <= i,
            same_except_usage(*state, old_state),
            usage_view(state.usage@) == apply_fetch_results(start, rs.take(i as int)),
        decreases results.len() - i,
    {
        let name = &results[i].0;
        let ghost before = usage_view(state.usage@);
        proof {
            assert(rs.take(i + 1).drop_last() =~= rs.take(i as int));
            assert(rs.take(i + 1).last() == rs[i as int]);
            assert(rs[i as int] == fetch_result_view(results@[i as int]));
        }
        match &results[i].1 {
            Ok(figures) => {
                state.usage.insert(
                    name.clone(),
                    UsageState { status: UsageStatus::Ready, usage: Some(*figures), error: None },
                );
                proof {
                    assert(usage_view(state.usage@) =~= apply_fetch_result(before, rs[i as int]));
                }
            },
            Err(error) => {
                failed = failed + 1;
                let previous = match state.usage.get(name.as_str()) {
                    Some(entry) => entry.usage,
                    None => None,
                };
                let status = if previous.is_some() {
                    UsageStatus::Stale
                } else {
                    UsageStatus::Error
                };
                state.usage.insert(
                    name.clone(),
                    UsageState { status, usage: previous, error: Some(error.clone()) },
                );
                proof {
                    assert(usage_view(state.usage@) =~= apply_fetch_result(before, rs[i as int]));
                }
            },
        }
        i += 1;
    }
    proof {
        assert(rs.take(results.len() as int) =~= rs);
    }
    state.usage_refreshing = false;
    failed
}

/// What handling a menu action asks of the application.
#[derive(Debug)]
pub enum Effect {
    /// Nothing to do.
    Nothing,
    /// Switch Nani to the named account in the background.
    SwitchAccount(String),
    /// Ask whether to remove the named account, and remove it if so.
    ConfirmDelete(String),
    /// Fetch the usage of every saved account in the background.
    FetchUsage,
    /// Save the login that Nani holds in the background.
    SaveCurrentLogin,
    OpenAccountsFolder,
    LaunchNani,
    /// Store the periodic usage refresh setting with this value.
    StorePeriodicRefresh(bool),
    ToggleStartup,
    Exit,
}

pub enum EffectView {
    Nothing,
    SwitchAccount(Seq<char>),
    ConfirmDelete(Seq<char>),
    FetchUsage,
    SaveCurrentLogin,
    OpenAccountsFolder,
    LaunchNani,
    StorePeriodicRefresh(bool),
    ToggleStartup,
    Exit,
}

impl View for Effect {
    type V = EffectView;

    open spec fn view(&self) -> EffectView {
        match self {
            Effect::Nothing => EffectView::Nothing,
            Effect::SwitchAccount(n) => EffectView::SwitchAccount(n@),
            Effect::ConfirmDelete(n) => EffectView::ConfirmDelete(n@),
            Effect::FetchUsage => EffectView::FetchUsage,
            Effect::SaveCurrentLogin => EffectView::SaveCurrentLogin,
            Effect::OpenAccountsFolder => EffectView::OpenAccountsFolder,
            Effect::LaunchNani => EffectView::LaunchNani,
            Effect::StorePeriodicRefresh(b) => EffectView::StorePeriodicRefresh(*b),
            Effect::ToggleStartup => EffectView::ToggleStartup,
            Effect::Exit => EffectView::Exit,
        }
    }
}

/// The tray state with another value of `busy`.
pub open spec fn with_busy(s: TrayState, busy: bool) -> TrayState {
    TrayState { busy, ..s }
}

/// Decides what a menu action does: a switch or a save starts (and marks the
/// application busy) only when no other one runs, and a switch only to an
/// account that is not the current one; a removal is asked for only when
/// nothing runs; a refresh starts as `start_usage_refresh` decides; the other
/// actions are handed to the application as they are.
pub fn handle_action(state: &mut TrayState, action: Action) -> (effect: Effect)
    ensures
        match action@ {
            ActionView::Switch(name) => if !old(state).busy && opt_view(old(state).current_name) != Some(name) {
                *final(state) == with_busy(*old(state), true) && effect@ == EffectView::SwitchAccount(name)
            } else {
                *final(state) == *old(state) && effect@ == EffectView::Nothing
            },
            ActionView::Delete(name) => *final(state) == *old(state) && if !old(state).busy {
                effect@ == EffectView::ConfirmDelete(name)
            } else {
                effect@ == EffectView::Nothing
            },
            ActionView::RefreshUsage => {
                let started = !(old(state).usage_refreshing || account_entries(old(state).accounts).len() == 0);
                &&& started ==> effect@ == EffectView::FetchUsage && final(state).usage_refreshing
                    && same_except_usage(*final(state), *old(state)) && usage_view(final(state).usage@)
                    == refreshing_board(usage_view(old(state).usage@), entry_names(account_entries(old(state).accounts)))
                &&& !started ==> effect@ == EffectView::Nothing && *final(state) == *old(state)
            },
            ActionView::SaveCurrent => if !old(state).busy {
                *final(state) == with_busy(*old(state), true) && effect@ == EffectView::SaveCurrentLogin
            } else {
                *final(state) == *old(state) && effect@ == EffectView::Nothing
            },
            ActionView::OpenAccounts => *final(state) == *old(state) && effect@ == EffectView::OpenAccountsFolder,
            ActionView::OpenNani => *final(state) == *old(state) && effect@ == EffectView::LaunchNani,
            ActionView::TogglePeriodicUsageRefresh => *final(state) == *old(state) && effect@
                == EffectView::StorePeriodicRefresh(!old(state).periodic_usage_refresh),
            ActionView::ToggleStartup => *final(state) == *old(state) && effect@ == EffectView::ToggleStartup,
            ActionView::Exit => *final(state) == *old(state) && effect@ == EffectView::Exit,
        },
{
    match action {
        Action::Switch(name) => {
            let is_current = match &state.current_name {
                Some(current) => current.eq(&name),
                None => false,
            };
            if !state.busy && !is_current {
                state.busy = true;
                Effect::SwitchAccount(name)
            } else {
                Effect::Nothing
            }
        },
        Action::Delete(name) => {
            if !state.busy {
                Effect::ConfirmDelete(name)
            } else {
                Effect::Nothing
            }
        },
        Action::RefreshUsage => {
            if start_usage_refresh(state) {
                Effect::FetchUsage
            } else {
                Effect::Nothing
            }
        },
        Action::SaveCurrent => {
            if !state.busy {
                state.busy = true;
                Effect::SaveCurrentLogin
            } else {
                Effect::Nothing
            }
        },
        Action::OpenAccounts => Effect::OpenAccountsFolder,
        Action::OpenNani => Effect::LaunchNani,
        Action::TogglePeriodicUsageRefresh => Effect::StorePeriodicRefresh(!state.periodic_usage_refresh),
        Action::ToggleStartup => Effect::ToggleStartup,
        Action::Exit => Effect::Exit,
    }
}

/// How often the login Nani holds is read again, in seconds.
pub const CURRENT_REFRESH_SECS: u64 = 15;

/// How often usage is refreshed when periodic refresh is on, in seconds.
pub const USAGE_REFRESH_SECS: u64 = 300;

/// What is due on a turn of the application's event loop.
#[derive(Clone, Copy, Debug, PartialEq, Eq)]
pub struct Tick {
    /// Read again the saved accounts and the login Nani holds.
    pub reload_current: bool,
    /// Start a usage refresh (`start_usage_refresh` then decides).
    pub refresh_usage: bool,
}

/// What is due, given the seconds since the login Nani holds was last read
/// and since the last usage refresh began: the login is read again every
/// fifteen seconds unless a switch or a save is under way, and usage is
/// refreshed every five minutes while periodic refresh is on.
pub fn tick(state: &TrayState, secs_since_current_refresh: u64, secs_since_usage_start: u64) -> (t: Tick)
    ensures
        t.reload_current == (secs_since_current_refresh >= 15 && !state.busy),
        t.refresh_usage == (state.periodic_usage_refresh && secs_since_usage_start >= 300),
{
    Tick {
        reload_current: secs_since_current_refresh >= CURRENT_REFRESH_SECS && !state.busy,
        refresh_usage: state.periodic_usage_refresh && secs_since_usage_start >= USAGE_REFRESH_SECS,
    }
}

/// Takes in a stored periodic refresh setting, given the seconds since the
/// last usage refresh began; when the setting was turned on and five minutes
/// have passed, starts a refresh. Returns whether a refresh was started.
pub fn periodic_refresh_stored(state: &mut TrayState, enabled: bool, secs_since_usage_start: u64) -> (started: bool)
    ensures
        final(state).periodic_usage_refresh == enabled,
        started == (enabled && secs_since_usage_start >= 300 && !old(state).usage_refreshing
            && account_entries(old(state).accounts).len() > 0),
        !started ==> *final(state) == (TrayState { periodic_usage_refresh: enabled, ..*old(state) }),
        started ==> final(state).usage_refreshing && final(state).accounts == old(state).accounts
            && final(state).current_name == old(state).current_name && final(state).busy == old(state).busy
            && final(state).current_snapshot == old(state).current_snapshot
            && usage_view(final(state).usage@) == refreshing_board(
                usage_view(old(state).usage@),
                entry_names(account_entries(old(state).accounts)),
            ),
{
    state.periodic_usage_refresh = enabled;
    if enabled && secs_since_usage_start >= USAGE_REFRESH_SECS {
        start_usage_refresh(state)
    } else {
        false
    }
}

/// What a background task came back with.
pub enum WorkerResult {
    /// The usage fetched for each saved account, or why it could not be.
    Usage(Vec<(String, Result<UsageFigures, String>)>),
    /// The outcome of switching to an account.
    Switch { name: String, result: Result<(), String> },
    /// The outcome of saving the current login: its name and whether an
    /// account was updated.
    Save(Result<(String, bool), String>),
}

/// A line for the log.
#[derive(Debug)]
pub struct LogLine {
    pub error: bool,
    pub message: String,
}

/// A message box to show.
#[derive(Debug)]
pub struct Notice {
    pub error: bool,
    pub title: String,
    pub message: String,
}

/// What to log and show after a background task, and what follows it.
#[derive(Debug)]
pub struct WorkerReport {
    pub logs: Vec<LogLine>,
    pub notice: Option<Notice>,
    /// Wait half a second before reading the saved accounts again, so that
    /// Nani has written its database.
    pub pause_before_reload: bool,
    /// Read again the saved accounts and the login Nani holds.
    pub reload_accounts: bool,
    /// Start a usage refresh (`start_usage_refresh` then decides).
    pub refresh_usage: bool,
}

pub struct LogLineView {
    pub error: bool,
    pub message: Seq<char>,
}

pub struct NoticeView {
    pub error: bool,
    pub title: Seq<char>,
    pub message: Seq<char>,
}

pub open spec fn logs_view(logs: Seq<LogLine>) -> Seq<LogLineView> {
    logs.map_values(|l: LogLine| LogLineView { error: l.error, message: l.message@ })
}

pub open spec fn notice_view(n: Option<Notice>) -> Option<NoticeView> {
    match n {
        Some(n) => Some(NoticeView { error: n.error, title: n.title@, message: n.message@ }),
        None => None,
    }
}

/// The error lines of the failed fetches, in order.
pub open spec fn failure_lines(rs: Seq<(Seq<char>, Result<UsageFigures, Seq<char>>)>) -> Seq<LogLineView>
    decreases rs.len(),
{
    if rs.len() == 0 {
        Seq::empty()
    } else {
        failure_lines(rs.drop_last()) + match rs.last().1 {
            Err(e) => seq![
                LogLineView { error: true, message: "Usage refresh failed for "@ + rs.last().0 + ": "@ + e },
            ],
            Ok(_) => Seq::<LogLineView>::empty(),
        }
    }
}

/// What to log after a usage refresh.
pub open spec fn usage_report_logs(rs: Seq<(Seq<char>, Result<UsageFigures, Seq<char>>)>) -> Seq<LogLineView> {
    failure_lines(rs).push(
        LogLineView {
            error: false,
            message: "Usage refresh finished with "@ + digits(failure_count(rs)) + " failure(s)"@,
        },
    )
}

fn joined(a: &str, b: &str, c: &str) -> (s: String)
    ensures
        s@ == a@ + b@ + c@,
{
    let mut s = a.to_owned();
    s.append(b);
    s.append(c);
    s
}

/// Takes in what a background task came back with. A usage refresh is
/// recorded as `apply_usage_results` does, and logged; a switch or a save ends
/// the busy time, is logged, and failures (and saves) are shown. After a
/// switch the accounts are read again, after a short pause; after a save they
/// are read again and a usage refresh follows.
pub fn apply_worker_result(state: &mut TrayState, result: WorkerResult) -> (report: WorkerReport)
    ensures
        report.pause_before_reload == result is Switch,
        report.reload_accounts == !(result is Usage),
        report.refresh_usage == result is Save,
        match result {
            WorkerResult::Usage(results) => {
                &&& !final(state).usage_refreshing
                &&& same_except_usage(*final(state), *old(state))
                &&& usage_view(final(state).usage@) == apply_fetch_results(
                    usage_view(old(state).usage@),
                    fetch_results_view(results@),
                )
                &&& logs_view(report.logs@) == usage_report_logs(fetch_results_view(results@))
                &&& report.notice is None
            },
            WorkerResult::Switch { name, result } => {
                &&& *final(state) == with_busy(*old(state), false)
                &&& match result {
                    Ok(()) => logs_view(report.logs@) == seq![
                        LogLineView { error: false, message: "Switched to account "@ + name@ },
                    ] && report.notice is None,
                    Err(e) => logs_view(report.logs@) == seq![
                        LogLineView { error: true, message: "Failed to switch to "@ + name@ + ": "@ + e@ },
                    ] && notice_view(report.notice) == Some(
                        NoticeView { error: true, title: "Account switch failed"@, message: e@ },
                    ),
                }
            },
            WorkerResult::Save(result) => {
                &&& *final(state) == with_busy(*old(state), false)
                &&& match result {
                    Ok((name, updated)) => logs_view(report.logs@) == Seq::<LogLineView>::empty()
                        && notice_view(report.notice) == Some(
                        NoticeView {
                            error: false,
                            title: "Nani account saved"@,
                            message: if updated {
                                "Updated "@ + name@ + "."@
                            } else {
                                "Saved as "@ + name@ + "."@
                            },
                        },
                    ),
                    Err(e) => logs_view(report.logs@) == seq![
                        LogLineView { error: true, message: "Could not save account: "@ + e@ },
                    ] && notice_view(report.notice) == Some(
                        NoticeView { error: true, title: "Could not save account"@, message: e@ },
                    ),
                }
            },
        },
{
    let mut logs: Vec<LogLine> = Vec::new();
    match result {
        WorkerResult::Usage(results) => {
            let failed = apply_usage_results(state, &results);
            let ghost rs = fetch_results_view(results@);
            let mut i: usize = 0;
            while i < results.len()
                invariant
                    rs == fetch_results_view(results@),
                    i <= results.len(),
                    logs_view(logs@) == failure_lines(rs.take(i as int)),
                decreases results.len() - i,
            {
                proof {
                    assert(rs.take(i + 1).drop_last() =~= rs.take(i as int));
                    assert(rs.take(i + 1).last() == rs[i as int]);
                    assert(rs[i as int] == fetch_result_view(results@[i as int]));
                }
                match &results[i].1 {
                    Err(error) => {
                        let mut message = joined("Usage refresh failed for ", results[i].0.as_str(), ": ");
                        message.append(error.as_str());
                        logs.push(LogLine { error: true, message });
                    },
                    Ok(_) => {},
                }
                proof {
                    assert(logs_view(logs@) =~= failure_lines(rs.take(i + 1)));
                }
                i += 1;
            }
            proof {
                assert(rs.take(results.len() as int) =~= rs);
            }
            let count = decimal(failed as u128);
            logs.push(LogLine { error: false, message: joined("Usage refresh finished with ", count.as_str(), " failure(s)") });
            proof {
                assert(logs_view(logs@) =~= usage_report_logs(rs));
            }
            WorkerReport { logs, notice: None, pause_before_reload: false, reload_accounts: false, refresh_usage: false }
        },
        WorkerResult::Switch { name, result } => {
            state.busy = false;
            match result {
                Ok(()) => {
                    let mut message = "Switched to account ".to_owned();
                    message.append(name.as_str());
                    logs.push(LogLine { error: false, message });
                    proof {
                        assert(logs_view(logs@) =~= seq![
                            LogLineView { error: false, message: "Switched to account "@ + name@ },
                        ]);
                    }
                    WorkerReport { logs, notice: None, pause_before_reload: true, reload_accounts: true, refresh_usage: false }
                },
                Err(error) => {
                    let mut message = joined("Failed to switch to ", name.as_str(), ": ");
                    message.append(error.as_str());
                    logs.push(LogLine { error: true, message });
                    proof {
                        assert(logs_view(logs@) =~= seq![
                            LogLineView { error: true, message: "Failed to switch to "@ + name@ + ": "@ + error@ },
                        ]);
                    }
                    WorkerReport {
                        logs,
                        notice: Some(Notice { error: true, title: "Account switch failed".to_owned(), message: error }),
                        pause_before_reload: true,
                        reload_accounts: true,
                        refresh_usage: false,
                    }
                },
            }
        },
        WorkerResult::Save(result) => {
            state.busy = false;
            match result {
                Ok((name, updated)) => {
                    let message = if updated {
                        joined("Updated ", name.as_str(), ".")
                    } else {
                        joined("Saved as ", name.as_str(), ".")
                    };
                    proof {
                        assert(logs_view(logs@) =~= Seq::<LogLineView>::empty());
                    }
                    WorkerReport {
                        logs,
                        notice: Some(Notice { error: false, title: "Nani account saved".to_owned(), message }),
                        pause_before_reload: false,
                        reload_accounts: true,
                        refresh_usage: true,
                    }
                },
                Err(error) => {
                    logs.push(LogLine { error: true, message: prefixed("Could not save account: ", error.as_str()) });
                    proof {
                        assert(logs_view(logs@) =~= seq![
                            LogLineView { error: true, message: "Could not save account: "@ + error@ },
                        ]);
                    }
                    WorkerReport {
                        logs,
                        notice: Some(Notice { error: true, title: "Could not save account".to_owned(), message: error }),
                        pause_before_reload: false,
                        reload_accounts: true,
                        refresh_usage: true,
                    }
                },
            }
        },
    }
}

} // verus!
