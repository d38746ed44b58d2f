use vstd::prelude::*;

use crate::ip_fetcher::IpAddress;

verus! {

/// Where the reconciliation loop stands.
#[derive(Clone, Copy, Debug, PartialEq, Eq, Structural)]
pub enum Phase {
    /// Ticking: each tick fetches the address and updates the record when
    /// it changed.
    Running,
    /// The shutdown signal fired; the run ends with success.
    ShuttingDown,
    /// A fetch or update failed while errors are fatal; the run ends with
    /// that error.
    Failed,
}

/// What the loop does next.
#[derive(Clone, Copy, Debug, PartialEq, Eq, Structural)]
pub enum LoopAction {
    /// Nothing more this tick: wait for the next one.
    Wait,
    /// Point the subject record at this address.
    Update(IpAddress),
    /// Stop and return the error just reported.
    Fail,
    /// Stop and return success.
    Finish,
}

/// The loop's state as a value: the failure policy, the address last
/// applied to the record, and the phase.
pub struct LoopModel {
    pub exit_on_error: bool,
    pub memo: Option<IpAddress>,
    pub phase: Phase,
}

/// The decisions of the daemon's reconciliation loop. Whoever drives the loop
/// waits for each tick, performs the fetch and the update, reports their
/// outcome here and does what comes back.
pub struct LoopState {
    exit_on_error: bool,
    memo: Option<IpAddress>,
    phase: Phase,
}

impl View for LoopState {
    type V = LoopModel;

    closed spec fn view(&self) -> LoopModel {
        LoopModel { exit_on_error: self.exit_on_error, memo: self.memo, phase: self.phase }
    }
}

/// The action once a fetch has given `fetched` (`None`: it failed).
pub open spec fn fetch_action(m: LoopModel, fetched: Option<IpAddress>) -> LoopAction {
    match m.phase {
        Phase::ShuttingDown => LoopAction::Finish,
        Phase::Failed => LoopAction::Fail,
        Phase::Running => match fetched {
            None => if m.exit_on_error { LoopAction::Fail } else { LoopAction::Wait },
            Some(ip) => if m.memo == Some(ip) { LoopAction::Wait } else { LoopAction::Update(ip) },
        },
    }
}

/// The state once a fetch has given `fetched`.
pub open spec fn fetch_model(m: LoopModel, fetched: Option<IpAddress>) -> LoopModel {
    if m.phase == Phase::Running && fetched is None && m.exit_on_error {
        LoopModel { phase: Phase::Failed, ..m }
    } else {
        m
    }
}

/// The action once an update to `ip` has succeeded (`ok`) or failed.
pub open spec fn update_action(m: LoopModel, ok: bool) -> LoopAction {
    match m.phase {
        Phase::ShuttingDown => LoopAction::Finish,
        Phase::Failed => LoopAction::Fail,
        Phase::Running => if !ok && m.exit_on_error { LoopAction::Fail } else { LoopAction::Wait },
    }
}

/// The state once an update to `ip` has succeeded (`ok`) or failed: only a
/// success while running moves the memo.
pub open spec fn update_model(m: LoopModel, ip: IpAddress, ok: bool) -> LoopModel {
    if m.phase != Phase::Running {
        m
    } else if ok {
        LoopModel { memo: Some(ip), ..m }
    } else if m.exit_on_error {
        LoopModel { phase: Phase::Failed, ..m }
    } else {
        m
    }
}

/// The state once the shutdown signal has fired.
pub open spec fn shutdown_model(m: LoopModel) -> LoopModel {
    if m.phase == Phase::Failed {
        m
    } else {
        LoopModel { phase: Phase::ShuttingDown, ..m }
    }
}

/// The update call that a tick makes, if any, when the fetch gives `fetched`.
pub open spec fn tick_call(m: LoopModel, fetched: Option<IpAddress>) -> Option<IpAddress> {
    match fetch_action(m, fetched) {
        LoopAction::Update(ip) => Some(ip),
        _ => None,
    }
}

/// The state after one whole tick: the fetch gives `fetched`, and the update,
/// if the tick makes one, succeeds when `ok`.
pub open spec fn tick(m: LoopModel, fetched: Option<IpAddress>, ok: bool) -> LoopModel {
    match tick_call(m, fetched) {
        Some(ip) => update_model(fetch_model(m, fetched), ip, ok),
        None => fetch_model(m, fetched),
    }
}

/// The state after a run of ticks, each given as the fetch's outcome and the
/// update's success.
pub open spec fn ticks(m: LoopModel, outcomes: Seq<(Option<IpAddress>, bool)>) -> LoopModel
    decreases outcomes.len(),
{
    if outcomes.len() == 0 {
        m
    } else {
        ticks(tick(m, outcomes[0].0, outcomes[0].1), outcomes.drop_first())
    }
}

/// The update calls that a run of ticks makes, in order.
pub open spec fn tick_calls(m: LoopModel, outcomes: Seq<(Option<IpAddress>, bool)>) -> Seq<IpAddress>
    decreases outcomes.len(),
{
    if outcomes.len() == 0 {
        Seq::empty()
    } else {
        let first = match tick_call(m, outcomes[0].0) {
            Some(ip) => seq![ip],
            None => Seq::empty(),
        };
        first + tick_calls(tick(m, outcomes[0].0, outcomes[0].1), outcomes.drop_first())
    }
}

/// Once the memo holds `a`, ticks that keep fetching `a` make no update call
/// and leave the state as it is.
pub proof fn lemma_memo_hit_makes_no_call(m: LoopModel, a: IpAddress, outcomes: Seq<(Option<IpAddress>, bool)>)
    requires
        m.memo == Some(a),
        forall|i: int| 0 <= i < outcomes.len() ==> #[trigger] outcomes[i].0 == Some(a),
    ensures
        tick_calls(m, outcomes).len() == 0,
        ticks(m, outcomes) == m,
    decreases outcomes.len(),
{
    if outcomes.len() > 0 {
        assert(outcomes[0].0 == Some(a));
        let rest = outcomes.drop_first();
        assert forall|i: int| 0 <= i < rest.len() implies #[trigger] rest[i].0 == Some(a) by {
            assert(rest[i] == outcomes[i + 1]);
        }
        lemma_memo_hit_makes_no_call(m, a, rest);
    }
}

/// Idempotence: while the fetched address stays `a`, the record is updated
/// at most once, to `a`; after the first successful update no further call
/// is made.
pub proof fn lemma_constant_address_updates_at_most_once(
    m: LoopModel,
    a: IpAddress,
    outcomes: Seq<(Option<IpAddress>, bool)>,
)
    requires
        forall|i: int| 0 <= i < outcomes.len() ==> #[trigger] outcomes[i].0 == Some(a),
        outcomes.len() > 0 ==> outcomes[0].1,
    ensures
        tick_calls(m, outcomes).len() <= 1,
        forall|k: int| 0 <= k < tick_calls(m, outcomes).len() ==> #[trigger] tick_calls(m, outcomes)[k] == a,
{
    if outcomes.len() > 0 {
        assert(outcomes[0].0 == Some(a));
        let rest = outcomes.drop_first();
        assert forall|i: int| 0 <= i < rest.len() implies #[trigger] rest[i].0 == Some(a) by {
            assert(rest[i] == outcomes[i + 1]);
        }
        let m1 = tick(m, Some(a), outcomes[0].1);
        if m.phase == Phase::Running {
            assert(m1.memo == Some(a));
            lemma_memo_hit_makes_no_call(m1, a, rest);
        } else {
            assert(m1 == m);
            assert(tick_call(m, Some(a)) is None);
            lemma_no_call_unless_running(m, rest);
        }
        let first = match tick_call(m, Some(a)) {
            Some(ip) => seq![ip],
            None => Seq::<IpAddress>::empty(),
        };
        assert(tick_calls(m, outcomes) == first + tick_calls(m1, rest));
        assert(tick_calls(m1, rest).len() == 0);
        assert(tick_calls(m, outcomes) =~= first);
    }
}

/// A loop that is no longer running makes no update call and stays as it is.
pub proof fn lemma_no_call_unless_running(m: LoopModel, outcomes: Seq<(Option<IpAddress>, bool)>)
    requires
        m.phase != Phase::Running,
    ensures
        tick_calls(m, outcomes).len() == 0,
        ticks(m, outcomes) == m,
    decreases outcomes.len(),
{
    if outcomes.len() > 0 {
        lemma_no_call_unless_running(m, outcomes.drop_first());
    }
}

/// A change of address triggers an update: after a tick that fetched `a` and
/// applied it, a tick that fetches another address `b` makes exactly one
/// update call, with `b`.
pub proof fn lemma_change_triggers_update(m: LoopModel, a: IpAddress, b: IpAddress)
    requires
        m.phase == Phase::Running,
        a != b,
    ensures
        tick(m, Some(a), true).phase == Phase::Running,
        tick(m, Some(a), true).memo == Some(a),
        tick_call(tick(m, Some(a), true), Some(b)) == Some(b),
{
}

/// A failed update leaves the memo as it was, so the next tick that fetches
/// the same address tries the update again.
pub proof fn lemma_failed_update_is_retried(m: LoopModel, a: IpAddress)
    requires
        m.phase == Phase::Running,
        !m.exit_on_error,
        tick_call(m, Some(a)) == Some(a),
    ensures
        tick(m, Some(a), false) == m,
        tick_call(tick(m, Some(a), false), Some(a)) == Some(a),
{
}

/// Shutdown takes precedence: once the signal has fired, whatever the fetch
/// or update in flight reports, the loop finishes with success, makes no
/// update call and keeps its state.
pub proof fn lemma_shutdown_takes_precedence(
    m: LoopModel,
    fetched: Option<IpAddress>,
    ip: IpAddress,
    ok: bool,
    outcomes: Seq<(Option<IpAddress>, bool)>,
)
    requires
        m.phase != Phase::Failed,
    ensures
        shutdown_model(m).phase == Phase::ShuttingDown,
        fetch_action(shutdown_model(m), fetched) == LoopAction::Finish,
        fetch_model(shutdown_model(m), fetched) == shutdown_model(m),
        update_action(shutdown_model(m), ok) == LoopAction::Finish,
        update_model(shutdown_model(m), ip, ok) == shutdown_model(m),
        tick_calls(shutdown_model(m), outcomes).len() == 0,
        ticks(shutdown_model(m), outcomes) == shutdown_model(m),
{
    lemma_no_call_unless_running(shutdown_model(m), outcomes);
}

/// With errors fatal, one failed fetch or update ends the loop with that
/// error; otherwise the loop goes on running after it.
pub proof fn lemma_exit_on_error_gating(m: LoopModel, ip: IpAddress)
    requires
        m.phase == Phase::Running,
    ensures
        m.exit_on_error ==> fetch_action(m, None) == LoopAction::Fail
            && fetch_model(m, None).phase == Phase::Failed
            && update_action(m, false) == LoopAction::Fail
            && update_model(m, ip, false).phase == Phase::Failed,
        !m.exit_on_error ==> fetch_action(m, None) == LoopAction::Wait
            && fetch_model(m, None) == m
            && update_action(m, false) == LoopAction::Wait
            && update_model(m, ip, false) == m,
{
}

impl LoopState {
    /// A running loop that has applied no address yet.
    pub fn new(exit_on_error: bool) -> (r: Self)
        ensures
            r@ == (LoopModel { exit_on_error, memo: None, phase: Phase::Running }),
    {
        LoopState { exit_on_error, memo: None, phase: Phase::Running }
    }

    /// Reports a fetch's outcome (`None`: it failed, and the error was logged).
    pub fn on_fetched(&mut self, fetched: Option<IpAddress>) -> (a: LoopAction)
        ensures
            a == fetch_action(old(self)@, fetched),
            final(self)@ == fetch_model(old(self)@, fetched),
    {
        match self.phase {
            Phase::ShuttingDown => LoopAction::Finish,
            Phase::Failed => LoopAction::Fail,
            Phase::Running => match fetched {
                None => {
                    if self.exit_on_error {
                        self.phase = Phase::Failed;
                        LoopAction::Fail
                    } else {
                        LoopAction::Wait
                    }
                },
                Some(ip) => {
                    let same = match self.memo {
                        Some(m) => m == ip,
                        None => false,
                    };
                    if same {
                        LoopAction::Wait
                    } else {
                        LoopAction::Update(ip)
                    }
                },
            },
        }
    }

    /// Reports whether the update to `ip` succeeded.
    pub fn on_updated(&mut self, ip: IpAddress, ok: bool) -> (a: LoopAction)
        ensures
            a == update_action(old(self)@, ok),
            final(self)@ == update_model(old(self)@, ip, ok),
    {
        match self.phase {
            Phase::ShuttingDown => LoopAction::Finish,
            Phase::Failed => LoopAction::Fail,
            Phase::Running => {
                if ok {
                    self.memo = Some(ip);
                    LoopAction::Wait
                } else if self.exit_on_error {
                    self.phase = Phase::Failed;
                    LoopAction::Fail
                } else {
                    LoopAction::Wait
                }
            },
        }
    }

    /// Reports that the shutdown signal fired.
    pub fn on_shutdown(&mut self) -> (a: LoopAction)
        ensures
            final(self)@ == shutdown_model(old(self)@),
            a == if old(self)@.phase == Phase::Failed { LoopAction::Fail } else { LoopAction::Finish },
    {
        if self.phase == Phase::Failed {
            LoopAction::Fail
        } else {
            self.phase = Phase::ShuttingDown;
            LoopAction::Finish
        }
    }

    /// The address last applied to the record.
    pub fn memo(&self) -> (r: Option<IpAddress>)
        ensures
            r == self@.memo,
    {
        self.memo
    }

    /// Whether the loop is running, shutting down or failed.
    pub fn phase(&self) -> (r: Phase)
        ensures
            r == self@.phase,
    {
        self.phase
    }
}

} // verus!
