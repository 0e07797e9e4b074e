use vstd::prelude::*;
use vstd::string::StringExecFns;
use crate::console::Console;
use crate::level::Level;
use crate::logger::{logged_once, Logger};
use crate::render::{dec_spec, u64_to_dec};

verus! {

/// What a single test procedure did: returned normally, or aborted the
/// whole run. There is no captured pass/fail value — a procedure signals
/// failure only through the process's abort mechanism.
#[derive(Clone, Copy, PartialEq, Eq, Structural, Debug)]
pub enum TestOutcome {
    Returned,
    Aborted,
}

/// The harness's execution protocol: `Running(i)` means tests `0..i` have
/// completed and test `i` is next; `Completed` means every registered test
/// returned; `Aborted` is terminal and ends the process.
pub enum ProtocolState {
    Running(int),
    Completed,
    Aborted,
}

/// One protocol transition: from `state`, with `n` tests registered, after
/// the current test finishes with `outcome`. The terminal states absorb.
pub open spec fn protocol_next(state: ProtocolState, n: int, outcome: TestOutcome) -> ProtocolState {
    match state {
        ProtocolState::Running(i) => {
            if outcome is Aborted {
                ProtocolState::Aborted
            } else if i + 1 >= n {
                ProtocolState::Completed
            } else {
                ProtocolState::Running(i + 1)
            }
        },
        other => other,
    }
}

/// The protocol state after the harness, over a registry of `n` tests, has
/// consumed the given outcomes in order. An empty registry completes
/// without a single transition.
pub open spec fn state_after(n: int, outcomes: Seq<TestOutcome>) -> ProtocolState
    decreases outcomes.len(),
{
    if outcomes.len() == 0 {
        if n == 0 {
            ProtocolState::Completed
        } else {
            ProtocolState::Running(0)
        }
    } else {
        protocol_next(state_after(n, outcomes.drop_last()), n, outcomes.last())
    }
}

/// The indices the harness executes starting at `i`, given each test's
/// outcome: it walks the registry in order and stops after the first abort
/// (or at the end).
pub open spec fn executed_from(i: int, n: int, outcomes: Seq<TestOutcome>) -> Seq<int>
    decreases n - i,
{
    if i < 0 || i >= n {
        Seq::<int>::empty()
    } else if outcomes[i] is Aborted {
        seq![i]
    } else {
        seq![i] + executed_from(i + 1, n, outcomes)
    }
}

/// If every test from `i` on returns normally, the harness executes each of
/// `i..n` exactly once, in registration order.
pub proof fn lemma_executed_all_returned(i: int, n: int, outcomes: Seq<TestOutcome>)
    requires
        0 <= i <= n,
        outcomes.len() == n,
        forall|j: int| i <= j < n ==> outcomes[j] is Returned,
    ensures
        executed_from(i, n, outcomes) =~= Seq::new((n - i) as nat, |j: int| i + j),
    decreases n - i,
{
    if i < n {
        lemma_executed_all_returned(i + 1, n, outcomes);
    }
}

/// If the test at `k` aborts and every earlier one from `i` on returns,
/// the harness executes exactly `i..=k`: the procedures after `k` never
/// run.
pub proof fn lemma_executed_stops_at_abort(i: int, n: int, outcomes: Seq<TestOutcome>, k: int)
    requires
        0 <= i <= k < n,
        outcomes.len() == n,
        outcomes[k] is Aborted,
        forall|j: int| i <= j < k ==> outcomes[j] is Returned,
    ensures
        executed_from(i, n, outcomes) =~= Seq::new((k + 1 - i) as nat, |j: int| i + j),
    decreases k - i,
{
    if i < k {
        lemma_executed_stops_at_abort(i + 1, n, outcomes, k);
    }
}

/// A run in which every consumed outcome was a normal return sits at
/// `Running(m)` after `m` of the `n` tests, and at `Completed` once all
/// `n` have been consumed.
pub proof fn lemma_state_all_returned(n: int, outcomes: Seq<TestOutcome>)
    requires
        0 <= outcomes.len() <= n,
        forall|j: int| 0 <= j < outcomes.len() ==> outcomes[j] is Returned,
    ensures
        outcomes.len() < n ==> state_after(n, outcomes) == ProtocolState::Running(
            outcomes.len() as int,
        ),
        outcomes.len() == n ==> state_after(n, outcomes) is Completed,
    decreases outcomes.len(),
{
    if outcomes.len() > 0 {
        lemma_state_all_returned(n, outcomes.drop_last());
    }
}

/// Once the first abort is among the consumed outcomes, the protocol sits
/// in the terminal `Aborted` state, whatever followed it.
pub proof fn lemma_state_aborted(n: int, outcomes: Seq<TestOutcome>, k: int)
    requires
        0 <= k < outcomes.len() <= n,
        outcomes[k] is Aborted,
        forall|j: int| 0 <= j < k ==> outcomes[j] is Returned,
    ensures
        state_after(n, outcomes) is Aborted,
    decreases outcomes.len(),
{
    if outcomes.len() - 1 == k {
        lemma_state_all_returned(n, outcomes.drop_last());
    } else {
        lemma_state_aborted(n, outcomes.drop_last(), k);
    }
}

/// The registry the harness walks: a fixed, ordered list of zero-argument
/// test procedures, known in full before the run starts.
///
/// `run_one` returning at all means the procedure returned normally; a
/// failing procedure aborts the process instead, which ends the run with
/// it — the environment offers no isolation to catch it, so the harness
/// does not pretend to.
pub trait TestRegistry: Sized {
    /// How many procedures are registered. Fixed for the whole run.
    spec fn count(&self) -> nat;

    /// The indices of the procedures run so far, in execution order.
    spec fn executed(&self) -> Seq<int>;

    /// The number of registered procedures.
    fn total(&self) -> (n: usize)
        ensures
            n as nat == self.count(),
    ;

    /// Runs procedure `i` on the single boot thread, synchronously.
    fn run_one(&mut self, i: usize)
        requires
            i < old(self).count(),
        ensures
            final(self).count() == old(self).count(),
            final(self).executed() == old(self).executed().push(i as int),
    ;
}

/// The record announcing a run: `running `, the decimal count, ` tests`.
pub open spec fn running_note(n: nat) -> Seq<char> {
    "running "@ + dec_spec(n) + " tests"@
}

/// Runs a fresh registry to completion: announces the total count in one
/// informational record, then executes every procedure in registration
/// order, exactly once each. If a procedure aborts, the process ends with
/// it and this function never returns; returning at all therefore means
/// every procedure returned normally.
pub fn run_tests<C: Console, R: TestRegistry>(logger: &Logger, con: &mut C, reg: &mut R)
    requires
        old(reg).executed() == Seq::<int>::empty(),
    ensures
        final(reg).count() == old(reg).count(),
        final(reg).executed() == Seq::new(old(reg).count(), |j: int| j),
        final(reg).executed() == executed_from(
            0,
            old(reg).count() as int,
            Seq::new(old(reg).count(), |j: int| TestOutcome::Returned),
        ),
        state_after(
            old(reg).count() as int,
            Seq::new(old(reg).count(), |j: int| TestOutcome::Returned),
        ) is Completed,
        logged_once(*old(con), *final(con), Level::Info, running_note(old(reg).count())),
{
    proof {
        let outcomes = Seq::new(old(reg).count(), |j: int| TestOutcome::Returned);
        lemma_executed_all_returned(0, old(reg).count() as int, outcomes);
        lemma_state_all_returned(old(reg).count() as int, outcomes);
    }
    let n = reg.total();
    let mut note = String::from_str("running ");
    let count_text = u64_to_dec(n as u64);
    note.append(count_text.as_str());
    note.append(" tests");
    proof {
        assert(note@ =~= running_note(reg.count()));
    }
    logger.log(con, Level::Info, note.as_str());
    let ghost con_mid = *con;
    let mut i: usize = 0;
    while i < n
        invariant
            i <= n,
            n as nat == reg.count(),
            reg.executed() =~= Seq::new(i as nat, |j: int| j),
            *con == con_mid,
            logged_once(*old(con), con_mid, Level::Info, running_note(old(reg).count())),
            old(reg).count() == reg.count(),
        decreases n - i,
    {
        reg.run_one(i);
        proof {
            assert(reg.executed() =~= Seq::new((i + 1) as nat, |j: int| j));
        }
        i += 1;
    }
    proof {
        assert(reg.executed() =~= Seq::new(old(reg).count(), |j: int| j));
    }
}

/// A registry whose procedures do nothing but record that they ran: the
/// in-library stand-in for a statically linked test list, and the registry
/// a test drives to watch the harness walk it.
pub struct RecordingRegistry {
    size: usize,
    runs: Vec<usize>,
}

impl RecordingRegistry {
    /// A fresh registry of `size` procedures, none run yet.
    pub fn new(size: usize) -> (reg: RecordingRegistry)
        ensures
            reg.count() == size as nat,
            reg.executed() == Seq::<int>::empty(),
    {
        RecordingRegistry { size, runs: Vec::new() }
    }

    /// The run order, for inspection after a run.
    pub fn runs(&self) -> (v: &Vec<usize>)
        ensures
            v@.map_values(|x: usize| x as int) == self.executed(),
    {
        &self.runs
    }
}

impl TestRegistry for RecordingRegistry {
    closed spec fn count(&self) -> nat {
        self.size as nat
    }

    closed spec fn executed(&self) -> Seq<int> {
        self.runs@.map_values(|x: usize| x as int)
    }

    fn total(&self) -> (n: usize) {
        self.size
    }

    fn run_one(&mut self, i: usize) {
        self.runs.push(i);
        proof {
            assert(self.executed() =~= old(self).executed().push(i as int));
        }
    }
}

} // verus!
