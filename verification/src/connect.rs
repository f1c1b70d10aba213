//! The decisions made while making sure that a broker answers on its socket:
//! ping it, start it once if it does not answer, then retry a bounded number
//! of times with a pause after each failed retry, and give up after that.
//!
//! The caller performs each action and reports, with `advance`, whether it
//! succeeded; only the outcome of a ping is looked at.

use vstd::prelude::*;

verus! {

/// Path of the broker's Unix socket.
pub const SOCKET_PATH: &'static str = "/tmp/pslog.sock";

/// How many times the broker is pinged again after it was started.
pub const RETRY_ATTEMPTS: u32 = 20;

/// Pause after each failed retry, in milliseconds.
pub const RETRY_DELAY_MS: u64 = 50;

/// Where the connection attempt stands.
#[derive(Clone, Copy, Debug, PartialEq, Eq, Structural)]
pub enum ConnectPhase {
    /// The first ping, before anything was started, is under way.
    FirstPing,
    /// The broker is being started.
    StartingServer,
    /// Retry number `k` (counting from 1) is under way.
    Retry(u32),
    /// Pausing after retry number `k` failed.
    Backoff(u32),
    /// A ping succeeded: the connection it made is to be used.
    Connected,
    /// Every retry failed.
    Failed,
}

/// What the caller is to do next.
#[derive(Clone, Copy, Debug, PartialEq, Eq, Structural)]
pub enum ConnectAction {
    /// Connect to the socket and ping the broker.
    Ping,
    /// Start the broker in the background.
    StartServer,
    /// Sleep for this many milliseconds.
    Sleep(u64),
    /// Use the connection that the last ping made.
    UseConnection,
    /// Stop: the broker cannot be reached.
    GiveUp,
}

impl ConnectPhase {
    /// The phase is final: `advance` no longer changes it.
    pub open spec fn is_final(self) -> bool {
        self is Connected || self is Failed
    }

    /// Retry numbers stay between 1 and the number of retries.
    pub open spec fn wf(self) -> bool {
        match self {
            ConnectPhase::Retry(k) => 1 <= k <= RETRY_ATTEMPTS,
            ConnectPhase::Backoff(k) => 1 <= k <= RETRY_ATTEMPTS,
            _ => true,
        }
    }
}

/// One step: the phase that follows `p` and the action to perform, given
/// whether the action just performed succeeded.
pub open spec fn next_step(p: ConnectPhase, succeeded: bool) -> (ConnectPhase, ConnectAction) {
    match p {
        ConnectPhase::FirstPing => if succeeded {
            (ConnectPhase::Connected, ConnectAction::UseConnection)
        } else {
            (ConnectPhase::StartingServer, ConnectAction::StartServer)
        },
        ConnectPhase::StartingServer => (ConnectPhase::Retry(1), ConnectAction::Ping),
        ConnectPhase::Retry(k) => if succeeded {
            (ConnectPhase::Connected, ConnectAction::UseConnection)
        } else {
            (ConnectPhase::Backoff(k), ConnectAction::Sleep(RETRY_DELAY_MS))
        },
        ConnectPhase::Backoff(k) => if k < RETRY_ATTEMPTS {
            (ConnectPhase::Retry((k + 1) as u32), ConnectAction::Ping)
        } else {
            (ConnectPhase::Failed, ConnectAction::GiveUp)
        },
        ConnectPhase::Connected => (ConnectPhase::Connected, ConnectAction::UseConnection),
        ConnectPhase::Failed => (ConnectPhase::Failed, ConnectAction::GiveUp),
    }
}

/// The start: the first ping is to be made.
pub fn begin() -> (r: (ConnectPhase, ConnectAction))
    ensures
        r == (ConnectPhase::FirstPing, ConnectAction::Ping),
{
    (ConnectPhase::FirstPing, ConnectAction::Ping)
}

/// The phase and action that follow `p` once its action was performed and,
/// for a ping, `succeeded` tells whether the broker answered.
pub fn advance(p: ConnectPhase, succeeded: bool) -> (r: (ConnectPhase, ConnectAction))
    ensures
        r == next_step(p, succeeded),
{
    match p {
        ConnectPhase::FirstPing => if succeeded {
            (ConnectPhase::Connected, ConnectAction::UseConnection)
        } else {
            (ConnectPhase::StartingServer, ConnectAction::StartServer)
        },
        ConnectPhase::StartingServer => (ConnectPhase::Retry(1), ConnectAction::Ping),
        ConnectPhase::Retry(k) => if succeeded {
            (ConnectPhase::Connected, ConnectAction::UseConnection)
        } else {
            (ConnectPhase::Backoff(k), ConnectAction::Sleep(RETRY_DELAY_MS))
        },
        ConnectPhase::Backoff(k) => if k < RETRY_ATTEMPTS {
            (ConnectPhase::Retry(k + 1), ConnectAction::Ping)
        } else {
            (ConnectPhase::Failed, ConnectAction::GiveUp)
        },
        ConnectPhase::Connected => (ConnectPhase::Connected, ConnectAction::UseConnection),
        ConnectPhase::Failed => (ConnectPhase::Failed, ConnectAction::GiveUp),
    }
}


/// The actions issued while `outcomes` are reported one after another from `p`.
pub open spec fn run_actions(p: ConnectPhase, outcomes: Seq<bool>) -> Seq<ConnectAction>
    decreases outcomes.len(),
{
    if outcomes.len() == 0 {
        Seq::empty()
    } else {
        let (q, a) = next_step(p, outcomes[0]);
        seq![a] + run_actions(q, outcomes.drop_first())
    }
}

/// The phase reached once `outcomes` were reported one after another from `p`.
pub open spec fn run_phase(p: ConnectPhase, outcomes: Seq<bool>) -> ConnectPhase
    decreases outcomes.len(),
{
    if outcomes.len() == 0 {
        p
    } else {
        run_phase(next_step(p, outcomes[0]).0, outcomes.drop_first())
    }
}

/// How many of `actions` are pings.
pub open spec fn ping_count(actions: Seq<ConnectAction>) -> nat
    decreases actions.len(),
{
    if actions.len() == 0 {
        0
    } else {
        (if actions[0] is Ping { 1nat } else { 0nat }) + ping_count(actions.drop_first())
    }
}

/// How many of `actions` start the broker.
pub open spec fn start_count(actions: Seq<ConnectAction>) -> nat
    decreases actions.len(),
{
    if actions.len() == 0 {
        0
    } else {
        (if actions[0] is StartServer { 1nat } else { 0nat }) + start_count(actions.drop_first())
    }
}

/// Milliseconds of sleep that `actions` ask for in all.
pub open spec fn sleep_total(actions: Seq<ConnectAction>) -> nat
    decreases actions.len(),
{
    if actions.len() == 0 {
        0
    } else {
        (match actions[0] {
            ConnectAction::Sleep(ms) => ms as nat,
            _ => 0nat,
        }) + sleep_total(actions.drop_first())
    }
}

/// Milliseconds of sleep that `p` may still ask for.
pub open spec fn sleep_left(p: ConnectPhase) -> nat {
    match p {
        ConnectPhase::FirstPing => (RETRY_ATTEMPTS * RETRY_DELAY_MS) as nat,
        ConnectPhase::StartingServer => (RETRY_ATTEMPTS * RETRY_DELAY_MS) as nat,
        ConnectPhase::Retry(k) => ((RETRY_ATTEMPTS - k + 1) * RETRY_DELAY_MS) as nat,
        ConnectPhase::Backoff(k) => ((RETRY_ATTEMPTS - k) * RETRY_DELAY_MS) as nat,
        _ => 0,
    }
}

/// Every run from a well-formed phase sleeps at most `sleep_left` in all.
proof fn lemma_run_sleeps(p: ConnectPhase, outcomes: Seq<bool>)
    requires
        p.wf(),
    ensures
        sleep_total(run_actions(p, outcomes)) <= sleep_left(p),
    decreases outcomes.len(),
{
    if outcomes.len() > 0 {
        let (q, a) = next_step(p, outcomes[0]);
        let rest = outcomes.drop_first();
        lemma_run_sleeps(q, rest);
        let acts = run_actions(p, outcomes);
        assert(acts.drop_first() =~= run_actions(q, rest));
        assert(acts[0] == a);
        if q.is_final() {
            lemma_final_sleeps(q, rest);
        }
    }
}

/// A final phase asks for no sleep.
proof fn lemma_final_sleeps(p: ConnectPhase, outcomes: Seq<bool>)
    requires
        p.is_final(),
    ensures
        sleep_total(run_actions(p, outcomes)) == 0,
    decreases outcomes.len(),
{
    if outcomes.len() > 0 {
        lemma_final_sleeps(p, outcomes.drop_first());
        assert(run_actions(p, outcomes).drop_first() =~= run_actions(p, outcomes.drop_first()));
    }
}

/// Pings that `p` may still ask for.
pub open spec fn pings_left(p: ConnectPhase) -> nat {
    match p {
        ConnectPhase::FirstPing => RETRY_ATTEMPTS as nat,
        ConnectPhase::StartingServer => RETRY_ATTEMPTS as nat,
        ConnectPhase::Retry(k) => (RETRY_ATTEMPTS - k) as nat,
        ConnectPhase::Backoff(k) => (RETRY_ATTEMPTS - k) as nat,
        _ => 0,
    }
}

/// Steps after which `p` is surely final.
pub open spec fn steps_left(p: ConnectPhase) -> nat {
    match p {
        ConnectPhase::FirstPing => (2 * RETRY_ATTEMPTS + 2) as nat,
        ConnectPhase::StartingServer => (2 * RETRY_ATTEMPTS + 1) as nat,
        ConnectPhase::Retry(k) => (2 * RETRY_ATTEMPTS + 2 - 2 * k) as nat,
        ConnectPhase::Backoff(k) => (2 * RETRY_ATTEMPTS + 1 - 2 * k) as nat,
        _ => 0,
    }
}

/// A step keeps retry numbers in range.
pub proof fn lemma_step_wf(p: ConnectPhase, succeeded: bool)
    requires
        p.wf(),
    ensures
        next_step(p, succeeded).0.wf(),
{
}

/// Every run from a well-formed phase asks for at most `pings_left` more pings
/// and, once the run reaches `Failed`, it asked for exactly that many.
proof fn lemma_run_pings(p: ConnectPhase, outcomes: Seq<bool>)
    requires
        p.wf(),
    ensures
        ping_count(run_actions(p, outcomes)) <= pings_left(p),
        run_phase(p, outcomes) is Failed ==> ping_count(run_actions(p, outcomes)) == pings_left(p),
    decreases outcomes.len(),
{
    if outcomes.len() > 0 {
        let (q, a) = next_step(p, outcomes[0]);
        let rest = outcomes.drop_first();
        lemma_run_pings(q, rest);
        let acts = run_actions(p, outcomes);
        assert(acts.drop_first() =~= run_actions(q, rest));
        assert(acts[0] == a);
        if q.is_final() {
            lemma_final_run(q, rest);
        }
    } else if p.is_final() {
    }
}

/// A final phase stays where it is and asks for nothing new.
proof fn lemma_final_run(p: ConnectPhase, outcomes: Seq<bool>)
    requires
        p.is_final(),
    ensures
        run_phase(p, outcomes) == p,
        ping_count(run_actions(p, outcomes)) == 0,
        start_count(run_actions(p, outcomes)) == 0,
    decreases outcomes.len(),
{
    if outcomes.len() > 0 {
        lemma_final_run(p, outcomes.drop_first());
        assert(run_actions(p, outcomes).drop_first() =~= run_actions(p, outcomes.drop_first()));
    }
}

/// Every run from a phase past the start of the broker never starts it again.
proof fn lemma_run_starts(p: ConnectPhase, outcomes: Seq<bool>)
    ensures
        !(p is FirstPing) ==> start_count(run_actions(p, outcomes)) == 0,
        start_count(run_actions(p, outcomes)) <= 1,
    decreases outcomes.len(),
{
    if outcomes.len() > 0 {
        let (q, a) = next_step(p, outcomes[0]);
        lemma_run_starts(q, outcomes.drop_first());
        assert(run_actions(p, outcomes).drop_first() =~= run_actions(q, outcomes.drop_first()));
    }
}

/// Every run from a well-formed phase is final after `steps_left` steps.
proof fn lemma_run_ends(p: ConnectPhase, outcomes: Seq<bool>)
    requires
        p.wf(),
        outcomes.len() >= steps_left(p),
    ensures
        run_phase(p, outcomes).is_final(),
    decreases outcomes.len(),
{
    if p.is_final() {
        lemma_final_run(p, outcomes);
    } else {
        let q = next_step(p, outcomes[0]).0;
        lemma_run_ends(q, outcomes.drop_first());
    }
}

/// Whatever the pings answer, a connection attempt pings the broker at most
/// once before starting it and at most `RETRY_ATTEMPTS` times after; it starts
/// the broker at most once; it sleeps at most `RETRY_ATTEMPTS * RETRY_DELAY_MS`
/// milliseconds in all; it gives up only after all of those retries failed;
/// and after `2 * RETRY_ATTEMPTS + 2` reported outcomes it has either connected
/// or given up.
pub proof fn law_connect_bounded(outcomes: Seq<bool>)
    ensures
        sleep_total(run_actions(ConnectPhase::FirstPing, outcomes)) <= RETRY_ATTEMPTS
            * RETRY_DELAY_MS,
        ping_count(run_actions(ConnectPhase::FirstPing, outcomes)) <= RETRY_ATTEMPTS,
        start_count(run_actions(ConnectPhase::FirstPing, outcomes)) <= 1,
        run_phase(ConnectPhase::FirstPing, outcomes) is Failed ==> ping_count(
            run_actions(ConnectPhase::FirstPing, outcomes),
        ) == RETRY_ATTEMPTS,
        outcomes.len() >= 2 * RETRY_ATTEMPTS + 2 ==> run_phase(
            ConnectPhase::FirstPing,
            outcomes,
        ).is_final(),
{
    lemma_run_pings(ConnectPhase::FirstPing, outcomes);
    lemma_run_sleeps(ConnectPhase::FirstPing, outcomes);
    lemma_run_starts(ConnectPhase::FirstPing, outcomes);
    if outcomes.len() >= 2 * RETRY_ATTEMPTS + 2 {
        lemma_run_ends(ConnectPhase::FirstPing, outcomes);
    }
}

/// The broker is started only after the first ping failed, and a ping that
/// succeeds always ends the attempt with the connection it made.
pub proof fn law_connect_start_and_success(p: ConnectPhase, succeeded: bool)
    ensures
        next_step(p, succeeded).1 is StartServer ==> p is FirstPing && !succeeded,
        (p is FirstPing || p is Retry) && succeeded ==> next_step(p, succeeded) == (
            ConnectPhase::Connected,
            ConnectAction::UseConnection,
        ),
{
}

} // verus!
