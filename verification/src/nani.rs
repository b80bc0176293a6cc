//! Switching Nani to a saved account: the order of the steps (close Nani and
//! wait for it to exit, write the token, clear its local storage, start it)
//! and when the switch ends; and telling from the output of Windows'
//! `tasklist` whether Nani is running.
use vstd::prelude::*;
use vstd::utf8::{decode_utf8, valid_utf8};

use crate::account_map::{account_entries, Accounts};
use crate::store::{require_account_token, spec_require_account_token, store_error_view, StoreError};
use crate::text::{ascii_lowercase, chars_of, contains_chars, contains_text, lowercase_chars};

verus! {

/// The text that bytes stand for when each invalid UTF-8 sequence is
/// replaced by U+FFFD.
pub uninterp spec fn utf8_lossy_decode(bytes: Seq<u8>) -> Seq<char>;

/// `String::from_utf8_lossy`, made an owned `String`. Claimed: the text that
/// `utf8_lossy_decode` names; and, as std documents, valid UTF-8 is decoded
/// as it is.
#[verifier::external_body]
fn utf8_lossy(bytes: &[u8]) -> (s: String)
    ensures
        s@ == utf8_lossy_decode(bytes@),
        valid_utf8(bytes@) ==> s@ == decode_utf8(bytes@),
{
    String::from_utf8_lossy(bytes).into_owned()
}

/// Whether the output of `tasklist` names Nani's process `nani.exe`, in any
/// ASCII case.
pub fn tasklist_lists_nani(stdout: &[u8]) -> (running: bool)
    ensures
        running == contains_text(ascii_lowercase(utf8_lossy_decode(stdout@)), "nani.exe"@),
{
    let text = utf8_lossy(stdout);
    let lowered = lowercase_chars(text.as_str());
    let needle = chars_of("nani.exe");
    contains_chars(&lowered, &needle)
}

/// How long the switch waits for Nani to exit, in milliseconds.
pub const EXIT_TIMEOUT_MS: u64 = 10000;

/// Where a switch stands.
#[derive(Clone, Copy, Debug, PartialEq, Eq, Structural)]
pub enum SwitchPhase {
    /// Waiting to learn whether Nani runs.
    CheckingRunning,
    /// Nani was told to close; waiting to learn how long the switch has waited.
    WaitingForExit,
    /// Waiting to learn whether Nani still runs.
    PollingExit,
    /// The token is being written into Nani's database.
    WritingToken,
    /// Nani's local storage is being cleared.
    ClearingStorage,
    /// Nani is being started.
    Launching,
    /// The switch has ended.
    Done,
}

/// What the application reports to a switch.
pub enum SwitchEvent {
    /// Whether Nani's process runs.
    Running(bool),
    /// How long the switch has waited for Nani to exit since closing it, in
    /// milliseconds.
    Waited { waited_ms: u64 },
    /// The outcome of writing the token.
    TokenWritten(Result<(), String>),
    /// Local storage was cleared (whatever came of it).
    StorageCleared,
    /// The outcome of starting Nani.
    Launched(Result<(), String>),
}

/// What a switch asks the application to do next.
#[derive(Debug)]
pub enum SwitchStep {
    /// Report whether Nani runs.
    CheckRunning,
    /// Close Nani, start the clock, and report how long it has waited.
    CloseNani,
    /// Report whether Nani still runs.
    PollRunning,
    /// Wait a quarter of a second, then report how long it has waited.
    Pause,
    /// Write this token into Nani's database and report the outcome.
    WriteToken(String),
    /// Clear Nani's local storage.
    ClearLocalStorage,
    /// Start Nani and report the outcome.
    Launch,
    /// The switch has ended, with this outcome.
    Finish(Result<(), String>),
}

/// A switch to a saved account under way.
pub struct AccountSwitch {
    token: String,
    phase: SwitchPhase,
}

impl AccountSwitch {
    /// The token being switched to.
    pub closed spec fn spec_token(&self) -> Seq<char> {
        self.token@
    }

    /// Where the switch stands.
    pub closed spec fn spec_phase(&self) -> SwitchPhase {
        self.phase
    }

    /// Where the switch stands.
    pub fn phase(&self) -> (phase: SwitchPhase)
        ensures
            phase == self.spec_phase(),
    {
        self.phase
    }
}

pub open spec fn step_string_result(r: Result<(), String>) -> Result<(), Seq<char>> {
    match r {
        Ok(()) => Ok(()),
        Err(e) => Err(e@),
    }
}

/// Begins switching to the account named `name`: the switch first asks
/// whether Nani runs. Fails as `require_account_token` does.
pub fn switch_to_account(accounts: &Accounts, name: &str) -> (res: Result<AccountSwitch, StoreError>)
    ensures
        match spec_require_account_token(account_entries(*accounts), name@) {
            Ok(token) => {
                &&& res matches Ok(s)
                &&& s.spec_token() == token
                &&& s.spec_phase() == SwitchPhase::CheckingRunning
            },
            Err(e) => {
                &&& res matches Err(err)
                &&& store_error_view(err) == e
            },
        },
{
    match require_account_token(accounts, name) {
        Ok(token) => Ok(AccountSwitch { token, phase: SwitchPhase::CheckingRunning }),
        Err(e) => Err(e),
    }
}

/// The message of a switch that gave up waiting for Nani to exit.
pub open spec fn exit_timeout_message() -> Seq<char> {
    "Nani did not exit within 10 seconds."@
}

/// The message of a switch that was handed an event that did not fit.
pub open spec fn interrupted_message() -> Seq<char> {
    "the switch was interrupted"@
}

/// An event, its texts taken as character sequences.
pub enum SwitchEventView {
    Running(bool),
    Waited(u64),
    TokenWritten(Result<(), Seq<char>>),
    StorageCleared,
    Launched(Result<(), Seq<char>>),
}

/// A step, its texts taken as character sequences.
pub enum SwitchStepView {
    CheckRunning,
    CloseNani,
    PollRunning,
    Pause,
    WriteToken(Seq<char>),
    ClearLocalStorage,
    Launch,
    Finish(Result<(), Seq<char>>),
}

impl View for SwitchEvent {
    type V = SwitchEventView;

    open spec fn view(&self) -> SwitchEventView {
        match self {
            SwitchEvent::Running(b) => SwitchEventView::Running(*b),
            SwitchEvent::Waited { waited_ms } => SwitchEventView::Waited(*waited_ms),
            SwitchEvent::TokenWritten(r) => SwitchEventView::TokenWritten(step_string_result(*r)),
            SwitchEvent::StorageCleared => SwitchEventView::StorageCleared,
            SwitchEvent::Launched(r) => SwitchEventView::Launched(step_string_result(*r)),
        }
    }
}

impl View for SwitchStep {
    type V = SwitchStepView;

    open spec fn view(&self) -> SwitchStepView {
        match self {
            SwitchStep::CheckRunning => SwitchStepView::CheckRunning,
            SwitchStep::CloseNani => SwitchStepView::CloseNani,
            SwitchStep::PollRunning => SwitchStepView::PollRunning,
            SwitchStep::Pause => SwitchStepView::Pause,
            SwitchStep::WriteToken(t) => SwitchStepView::WriteToken(t@),
            SwitchStep::ClearLocalStorage => SwitchStepView::ClearLocalStorage,
            SwitchStep::Launch => SwitchStepView::Launch,
            SwitchStep::Finish(r) => SwitchStepView::Finish(step_string_result(*r)),
        }
    }
}

/// One move of a switch for the token `token`: from where it stands and what
/// the application reports, where it then stands and what it asks for. When
/// Nani runs it is closed, then polled until it has exited, giving up once ten
/// seconds have passed; then the token is written, local storage cleared, and
/// Nani started. A failed write or start ends the switch with that failure;
/// an event that does not fit the phase ends it.
pub open spec fn switch_move(phase: SwitchPhase, token: Seq<char>, event: SwitchEventView) -> (
    SwitchPhase,
    SwitchStepView,
) {
    match (phase, event) {
        (SwitchPhase::CheckingRunning, SwitchEventView::Running(true)) => (
            SwitchPhase::WaitingForExit,
            SwitchStepView::CloseNani,
        ),
        (SwitchPhase::CheckingRunning, SwitchEventView::Running(false)) => (
            SwitchPhase::WritingToken,
            SwitchStepView::WriteToken(token),
        ),
        (SwitchPhase::WaitingForExit, SwitchEventView::Waited(ms)) => if ms < EXIT_TIMEOUT_MS {
            (SwitchPhase::PollingExit, SwitchStepView::PollRunning)
        } else {
            (SwitchPhase::Done, SwitchStepView::Finish(Err(exit_timeout_message())))
        },
        (SwitchPhase::PollingExit, SwitchEventView::Running(true)) => (
            SwitchPhase::WaitingForExit,
            SwitchStepView::Pause,
        ),
        (SwitchPhase::PollingExit, SwitchEventView::Running(false)) => (
            SwitchPhase::WritingToken,
            SwitchStepView::WriteToken(token),
        ),
        (SwitchPhase::WritingToken, SwitchEventView::TokenWritten(r)) => match r {
            Ok(()) => (SwitchPhase::ClearingStorage, SwitchStepView::ClearLocalStorage),
            Err(e) => (SwitchPhase::Done, SwitchStepView::Finish(Err(e))),
        },
        (SwitchPhase::ClearingStorage, SwitchEventView::StorageCleared) => (
            SwitchPhase::Launching,
            SwitchStepView::Launch,
        ),
        (SwitchPhase::Launching, SwitchEventView::Launched(r)) => (
            SwitchPhase::Done,
            SwitchStepView::Finish(r),
        ),
        (_, _) => (SwitchPhase::Done, SwitchStepView::Finish(Err(interrupted_message()))),
    }
}

impl AccountSwitch {
    /// Takes in what the application reports and says what to do next, as
    /// `switch_move` describes.
    pub fn next(&mut self, event: SwitchEvent) -> (step: SwitchStep)
        ensures
            final(self).spec_token() == old(self).spec_token(),
            (final(self).spec_phase(), step@) == switch_move(old(self).spec_phase(), old(self).spec_token(), event@),
    {
        match (self.phase, event) {
            (SwitchPhase::CheckingRunning, SwitchEvent::Running(true)) => {
                self.phase = SwitchPhase::WaitingForExit;
                SwitchStep::CloseNani
            },
            (SwitchPhase::CheckingRunning, SwitchEvent::Running(false)) => {
                self.phase = SwitchPhase::WritingToken;
                SwitchStep::WriteToken(self.token.clone())
            },
            (SwitchPhase::WaitingForExit, SwitchEvent::Waited { waited_ms }) => {
                if waited_ms < EXIT_TIMEOUT_MS {
                    self.phase = SwitchPhase::PollingExit;
                    SwitchStep::PollRunning
                } else {
                    self.phase = SwitchPhase::Done;
                    SwitchStep::Finish(Err("Nani did not exit within 10 seconds.".to_owned()))
                }
            },
            (SwitchPhase::PollingExit, SwitchEvent::Running(true)) => {
                self.phase = SwitchPhase::WaitingForExit;
                SwitchStep::Pause
            },
            (SwitchPhase::PollingExit, SwitchEvent::Running(false)) => {
                self.phase = SwitchPhase::WritingToken;
                SwitchStep::WriteToken(self.token.clone())
            },
            (SwitchPhase::WritingToken, SwitchEvent::TokenWritten(r)) => match r {
                Ok(()) => {
                    self.phase = SwitchPhase::ClearingStorage;
                    SwitchStep::ClearLocalStorage
                },
                Err(e) => {
                    self.phase = SwitchPhase::Done;
                    SwitchStep::Finish(Err(e))
                },
            },
            (SwitchPhase::ClearingStorage, SwitchEvent::StorageCleared) => {
                self.phase = SwitchPhase::Launching;
                SwitchStep::Launch
            },
            (SwitchPhase::Launching, SwitchEvent::Launched(r)) => {
                self.phase = SwitchPhase::Done;
                SwitchStep::Finish(r)
            },
            (_, _) => {
                self.phase = SwitchPhase::Done;
                SwitchStep::Finish(Err("the switch was interrupted".to_owned()))
            },
        }
    }
}

/// A whole run of a switch for the token `token`, from `phase`, fed the
/// events `events` in order: where it then stands and the steps it asked
/// for, one per event.
pub open spec fn switch_run(phase: SwitchPhase, token: Seq<char>, events: Seq<SwitchEventView>) -> (
    SwitchPhase,
    Seq<SwitchStepView>,
)
    decreases events.len(),
{
    if events.len() == 0 {
        (phase, Seq::empty())
    } else {
        let before = switch_run(phase, token, events.drop_last());
        let (next, step) = switch_move(before.0, token, events.last());
        (next, before.1.push(step))
    }
}

/// Where a run stands before its `k`-th event.
pub open spec fn phase_before(phase: SwitchPhase, token: Seq<char>, events: Seq<SwitchEventView>, k: int) -> SwitchPhase {
    switch_run(phase, token, events.take(k)).0
}

/// How far a phase is along a switch; no move goes back.
pub open spec fn phase_rank(phase: SwitchPhase) -> int {
    match phase {
        SwitchPhase::CheckingRunning => 0,
        SwitchPhase::WaitingForExit => 1,
        SwitchPhase::PollingExit => 1,
        SwitchPhase::WritingToken => 2,
        SwitchPhase::ClearingStorage => 3,
        SwitchPhase::Launching => 4,
        SwitchPhase::Done => 5,
    }
}

/// A run asks for one step per event; each step is the move from where the
/// run stood before that event.
proof fn lemma_run_moves(phase: SwitchPhase, token: Seq<char>, events: Seq<SwitchEventView>)
    ensures
        switch_run(phase, token, events).1.len() == events.len(),
        phase_before(phase, token, events, 0) == phase,
        phase_before(phase, token, events, events.len() as int) == switch_run(phase, token, events).0,
        forall|k: int|
            #![trigger switch_run(phase, token, events).1[k]]
            0 <= k < events.len() ==> switch_run(phase, token, events).1[k] == switch_move(
                phase_before(phase, token, events, k),
                token,
                events[k],
            ).1,
        forall|k: int|
            #![trigger phase_before(phase, token, events, k + 1)]
            0 <= k < events.len() ==> phase_before(phase, token, events, k + 1) == switch_move(
                phase_before(phase, token, events, k),
                token,
                events[k],
            ).0,
    decreases events.len(),
{
    assert(events.take(0) =~= Seq::<SwitchEventView>::empty());
    assert(events.take(events.len() as int) =~= events);
    if events.len() > 0 {
        let shorter = events.drop_last();
        lemma_run_moves(phase, token, shorter);
        assert forall|k: int| 0 <= k <= shorter.len() implies #[trigger] phase_before(phase, token, events, k)
            == phase_before(phase, token, shorter, k) by {
            assert(events.take(k) =~= shorter.take(k));
        }
        assert(shorter.take(shorter.len() as int) =~= shorter);
        assert forall|k: int| 0 <= k < events.len() implies #[trigger] switch_run(phase, token, events).1[k]
            == switch_move(phase_before(phase, token, events, k), token, events[k]).1 by {
            if k < shorter.len() {
                assert(events[k] == shorter[k]);
            }
        }
        assert forall|k: int| 0 <= k < events.len() implies #[trigger] phase_before(phase, token, events, k + 1)
            == switch_move(phase_before(phase, token, events, k), token, events[k]).0 by {
            if k + 1 < events.len() {
                assert(events[k] == shorter[k]);
            }
        }
    }
}

/// The rank of where a run stands never falls.
proof fn lemma_rank_grows(phase: SwitchPhase, token: Seq<char>, events: Seq<SwitchEventView>, i: int, j: int)
    requires
        0 <= i <= j <= events.len(),
    ensures
        phase_rank(phase_before(phase, token, events, i)) <= phase_rank(phase_before(phase, token, events, j)),
    decreases j - i,
{
    if i < j {
        lemma_run_moves(phase, token, events);
        lemma_rank_grows(phase, token, events, i, j - 1);
        assert(phase_before(phase, token, events, (j - 1) + 1) == switch_move(
            phase_before(phase, token, events, j - 1),
            token,
            events[j - 1],
        ).0);
    }
}

/// Law: a switch that ends well ran its steps in order. The token was
/// written once Nani was seen not running, then local storage was cleared,
/// then Nani was started, and its start succeeded; before the write there
/// were only Nani's closing and the wait for it to exit, which took less
/// than ten seconds at every report; Nani was closed exactly when it was
/// first found running.
pub proof fn law_successful_switch_runs_in_order(token: Seq<char>, events: Seq<SwitchEventView>, k: int)
    requires
        0 <= k < events.len(),
        switch_run(SwitchPhase::CheckingRunning, token, events).1[k] == SwitchStepView::Finish(Ok(())),
    ensures
        ({
            let steps = switch_run(SwitchPhase::CheckingRunning, token, events).1;
            &&& k >= 3
            &&& events[k - 3] == SwitchEventView::Running(false)
            &&& steps[k - 3] == SwitchStepView::WriteToken(token)
            &&& events[k - 2] matches SwitchEventView::TokenWritten(Ok(_))
            &&& steps[k - 2] == SwitchStepView::ClearLocalStorage
            &&& events[k - 1] == SwitchEventView::StorageCleared
            &&& steps[k - 1] == SwitchStepView::Launch
            &&& events[k] == SwitchEventView::Launched(Ok(()))
            &&& (events[0] == SwitchEventView::Running(true)) == (k > 3)
            &&& k > 3 ==> steps[0] == SwitchStepView::CloseNani
            &&& forall|i: int|
                0 <= i < k - 3 ==> (#[trigger] steps[i] == SwitchStepView::CloseNani || steps[i]
                    == SwitchStepView::PollRunning || steps[i] == SwitchStepView::Pause)
            &&& forall|i: int|
                0 <= i < k - 3 ==> (#[trigger] events[i] matches SwitchEventView::Waited(ms) ==> ms
                    < EXIT_TIMEOUT_MS)
        }),
{
    let start = SwitchPhase::CheckingRunning;
    let steps = switch_run(start, token, events).1;
    lemma_run_moves(start, token, events);
    let p3 = phase_before(start, token, events, k - 3);
    let p2 = phase_before(start, token, events, k - 2);
    let p1 = phase_before(start, token, events, k - 1);
    assert(phase_before(start, token, events, k) == SwitchPhase::Launching);
    assert(k >= 1);
    assert(phase_before(start, token, events, (k - 1) + 1) == switch_move(p1, token, events[k - 1]).0);
    lemma_move_into_launching(p1, token, events[k - 1]);
    assert(k >= 2);
    assert(phase_before(start, token, events, (k - 2) + 1) == switch_move(p2, token, events[k - 2]).0);
    lemma_move_into_clearing(p2, token, events[k - 2]);
    assert(k >= 3);
    assert(phase_before(start, token, events, (k - 3) + 1) == switch_move(p3, token, events[k - 3]).0);
    lemma_move_into_writing(p3, token, events[k - 3]);
    assert forall|i: int|
        #![trigger steps[i]]
        #![trigger events[i]]
        0 <= i < k - 3 implies (steps[i] == SwitchStepView::CloseNani || steps[i] == SwitchStepView::PollRunning
            || steps[i] == SwitchStepView::Pause) && (events[i] matches SwitchEventView::Waited(ms) ==> ms
            < EXIT_TIMEOUT_MS) by {
        lemma_rank_grows(start, token, events, i, k - 3);
        lemma_rank_grows(start, token, events, i + 1, k - 3);
        assert(phase_before(start, token, events, i + 1) == switch_move(
            phase_before(start, token, events, i),
            token,
            events[i],
        ).0);
        lemma_move_within_wait(phase_before(start, token, events, i), token, events[i]);
    }
    if k > 3 {
        lemma_rank_grows(start, token, events, 1, k - 3);
        assert(phase_before(start, token, events, 0int + 1) == switch_move(start, token, events[0]).0);
        assert(steps[0] == switch_move(start, token, events[0]).1);
        lemma_move_within_wait(start, token, events[0]);
    }
}

/// Nani is started only after local storage was cleared.
proof fn lemma_move_into_launching(phase: SwitchPhase, token: Seq<char>, event: SwitchEventView)
    requires
        switch_move(phase, token, event).0 == SwitchPhase::Launching,
    ensures
        phase == SwitchPhase::ClearingStorage,
        event == SwitchEventView::StorageCleared,
        switch_move(phase, token, event).1 == SwitchStepView::Launch,
{
}

/// Local storage is cleared only after the token was written.
proof fn lemma_move_into_clearing(phase: SwitchPhase, token: Seq<char>, event: SwitchEventView)
    requires
        switch_move(phase, token, event).0 == SwitchPhase::ClearingStorage,
    ensures
        phase == SwitchPhase::WritingToken,
        event matches SwitchEventView::TokenWritten(Ok(_)),
        switch_move(phase, token, event).1 == SwitchStepView::ClearLocalStorage,
{
}

/// The token is written only once Nani is seen not running.
proof fn lemma_move_into_writing(phase: SwitchPhase, token: Seq<char>, event: SwitchEventView)
    requires
        switch_move(phase, token, event).0 == SwitchPhase::WritingToken,
    ensures
        phase == SwitchPhase::CheckingRunning || phase == SwitchPhase::PollingExit,
        event == SwitchEventView::Running(false),
        switch_move(phase, token, event).1 == SwitchStepView::WriteToken(token),
{
}

/// A move that stays among checking, closing and waiting closes Nani, polls
/// it or pauses, and takes only reports of waits under ten seconds.
proof fn lemma_move_within_wait(phase: SwitchPhase, token: Seq<char>, event: SwitchEventView)
    requires
        phase_rank(phase) <= 1,
        phase_rank(switch_move(phase, token, event).0) <= 1,
    ensures
        ({
            let step = switch_move(phase, token, event).1;
            step == SwitchStepView::CloseNani || step == SwitchStepView::PollRunning || step
                == SwitchStepView::Pause
        }),
        event matches SwitchEventView::Waited(ms) ==> ms < EXIT_TIMEOUT_MS,
        phase == SwitchPhase::CheckingRunning ==> event == SwitchEventView::Running(true)
            && switch_move(phase, token, event).1 == SwitchStepView::CloseNani,
{
}

/// Law: once a switch has finished, it stays finished: every later event
/// is answered that the switch was interrupted, and nothing more is done.
pub proof fn law_finish_ends_the_switch(token: Seq<char>, events: Seq<SwitchEventView>, k: int, m: int)
    requires
        0 <= k < m < events.len(),
        switch_run(SwitchPhase::CheckingRunning, token, events).1[k] is Finish,
    ensures
        switch_run(SwitchPhase::CheckingRunning, token, events).1[m] == SwitchStepView::Finish(
            Err(interrupted_message()),
        ),
{
    let start = SwitchPhase::CheckingRunning;
    lemma_run_moves(start, token, events);
    assert(phase_before(start, token, events, k + 1) == switch_move(
        phase_before(start, token, events, k),
        token,
        events[k],
    ).0);
    lemma_rank_grows(start, token, events, k + 1, m);
}

/// Whether a step touches Nani's data: writes the token, clears local
/// storage, or starts Nani.
pub open spec fn acts_on_nani(step: SwitchStepView) -> bool {
    step is WriteToken || step is ClearLocalStorage || step is Launch
}

/// Law: a switch that gives up waiting for Nani to exit ends with the
/// timeout message, and at no point of its run writes the token, clears
/// local storage or starts Nani.
pub proof fn law_timeout_writes_nothing(token: Seq<char>, events: Seq<SwitchEventView>, k: int)
    requires
        0 <= k < events.len(),
        phase_before(SwitchPhase::CheckingRunning, token, events, k) == SwitchPhase::WaitingForExit,
        events[k] matches SwitchEventView::Waited(ms) && ms >= EXIT_TIMEOUT_MS,
    ensures
        switch_run(SwitchPhase::CheckingRunning, token, events).1[k] == SwitchStepView::Finish(
            Err(exit_timeout_message()),
        ),
        forall|m: int|
            0 <= m < events.len() ==> !acts_on_nani(
                #[trigger] switch_run(SwitchPhase::CheckingRunning, token, events).1[m],
            ),
{
    let start = SwitchPhase::CheckingRunning;
    let steps = switch_run(start, token, events).1;
    lemma_run_moves(start, token, events);
    assert forall|m: int| 0 <= m < events.len() implies !acts_on_nani(#[trigger] steps[m]) by {
        assert(phase_before(start, token, events, m + 1) == switch_move(
            phase_before(start, token, events, m),
            token,
            events[m],
        ).0);
        if m < k {
            lemma_rank_grows(start, token, events, m + 1, k);
        } else if m > k {
            assert(phase_before(start, token, events, k + 1) == switch_move(
                phase_before(start, token, events, k),
                token,
                events[k],
            ).0);
            lemma_rank_grows(start, token, events, k + 1, m);
        }
    }
}

/// Law: a switch whose token write fails ends with that failure, and at no
/// point of its run clears local storage or starts Nani.
pub proof fn law_failed_write_stops_the_switch(token: Seq<char>, events: Seq<SwitchEventView>, k: int, e: Seq<char>)
    requires
        0 <= k < events.len(),
        phase_before(SwitchPhase::CheckingRunning, token, events, k) == SwitchPhase::WritingToken,
        events[k] == SwitchEventView::TokenWritten(Err(e)),
    ensures
        switch_run(SwitchPhase::CheckingRunning, token, events).1[k] == SwitchStepView::Finish(Err(e)),
        forall|m: int|
            0 <= m < events.len() ==> {
                let step = #[trigger] switch_run(SwitchPhase::CheckingRunning, token, events).1[m];
                !(step is ClearLocalStorage) && !(step is Launch)
            },
{
    let start = SwitchPhase::CheckingRunning;
    let steps = switch_run(start, token, events).1;
    lemma_run_moves(start, token, events);
    assert forall|m: int| 0 <= m < events.len() implies !(#[trigger] steps[m] is ClearLocalStorage) && !(
    steps[m] is Launch) by {
        assert(phase_before(start, token, events, m + 1) == switch_move(
            phase_before(start, token, events, m),
            token,
            events[m],
        ).0);
        if m < k {
            lemma_rank_grows(start, token, events, m + 1, k);
        } else if m > k {
            assert(phase_before(start, token, events, k + 1) == switch_move(
                phase_before(start, token, events, k),
                token,
                events[k],
            ).0);
            lemma_rank_grows(start, token, events, k + 1, m);
        }
    }
}

} // verus!
