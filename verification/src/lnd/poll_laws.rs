//! What holds of every run of a manager.
//!
//! A run is a start state and the inputs that arrive, one after another.
//! Each input is an event together with the value that the shutdown flag has
//! when the event arrives.

use crate::lnd::domain::ln_get_info::LnGetInfoView;
use crate::lnd::node_client::{
    conclusion_of, failure_of, triage_of, FailureKind, FetchOutcomeView, ReplyView, TriageView,
    STATUS_OK,
};
use crate::lnd::poll_loop::{
    checks_flag, log_of, step_of, ActionView, EventView, LogEventView, ManagerState, StepView,
};
use vstd::prelude::*;

verus! {

/// An event and the value of the shutdown flag at its arrival.
pub struct Input {
    pub event: EventView,
    pub shutdown: bool,
}

/// Where a run has got to, and the actions that the manager asked for on
/// the way, in order.
pub struct Trace {
    pub state: ManagerState,
    pub actions: Seq<ActionView>,
}

/// The run of a manager from `state` over `inputs`. An input that the
/// manager does not expect changes nothing.
pub open spec fn run_of(state: ManagerState, inputs: Seq<Input>) -> Trace
    decreases inputs.len(),
{
    if inputs.len() == 0 {
        Trace { state, actions: Seq::empty() }
    } else {
        let before = run_of(state, inputs.drop_last());
        match step_of(before.state, inputs.last().event, inputs.last().shutdown) {
            Some(step) => Trace { state: step.state, actions: before.actions.push(step.action) },
            None => before,
        }
    }
}

/// How many times a run asked to wait for the next tick.
pub open spec fn waits(actions: Seq<ActionView>) -> nat
    decreases actions.len(),
{
    if actions.len() == 0 {
        0
    } else if actions.last() is Wait {
        waits(actions.drop_last()) + 1
    } else {
        waits(actions.drop_last())
    }
}

/// The three inputs of one full cycle that starts with a check in flight:
/// the check comes back with `outcome`, the line is logged, the timer
/// fires. `shutdown` is the value of the flag throughout.
pub open spec fn cycle(outcome: FetchOutcomeView, shutdown: bool) -> Seq<Input> {
    seq![
        Input { event: EventView::Fetched(outcome), shutdown },
        Input { event: EventView::Logged, shutdown },
        Input { event: EventView::TickElapsed, shutdown },
    ]
}

/// `n` cycles in a row, each with the same outcome, the flag never raised.
pub open spec fn cycles(outcome: FetchOutcomeView, n: nat) -> Seq<Input>
    decreases n,
{
    if n == 0 {
        Seq::empty()
    } else {
        cycles(outcome, (n - 1) as nat) + cycle(outcome, false)
    }
}

/// What `n` cycles with the same outcome ask for: `n` times the same log
/// line, a wait, and the next check.
pub open spec fn cycle_actions(outcome: FetchOutcomeView, n: nat) -> Seq<ActionView>
    decreases n,
{
    if n == 0 {
        Seq::empty()
    } else {
        cycle_actions(outcome, (n - 1) as nat) + seq![
            ActionView::Log(log_of(outcome)),
            ActionView::Wait,
            ActionView::Fetch,
        ]
    }
}

/// A run over one more input is the run so far, moved once.
pub proof fn lemma_run_push(state: ManagerState, inputs: Seq<Input>, next: Input)
    ensures
        run_of(state, inputs.push(next)) == (match step_of(
            run_of(state, inputs).state,
            next.event,
            next.shutdown,
        ) {
            Some(step) => Trace {
                state: step.state,
                actions: run_of(state, inputs).actions.push(step.action),
            },
            None => run_of(state, inputs),
        }),
{
    assert(inputs.push(next).drop_last() =~= inputs);
    assert(inputs.push(next).last() == next);
}

/// A run over two stretches of inputs is the run over the first, carried on
/// over the second.
pub proof fn lemma_run_concat(state: ManagerState, first: Seq<Input>, second: Seq<Input>)
    ensures
        run_of(state, first + second).state == run_of(run_of(state, first).state, second).state,
        run_of(state, first + second).actions == run_of(state, first).actions + run_of(
            run_of(state, first).state,
            second,
        ).actions,
    decreases second.len(),
{
    let middle = run_of(state, first).state;
    if second.len() == 0 {
        assert(first + second =~= first);
        assert(run_of(state, first).actions + run_of(middle, second).actions =~= run_of(
            state,
            first,
        ).actions);
    } else {
        let head = second.drop_last();
        let last = second.last();
        lemma_run_concat(state, first, head);
        assert(first + second =~= (first + head).push(last));
        assert(second =~= head.push(last));
        lemma_run_push(state, first + head, last);
        lemma_run_push(middle, head, last);
        let so_far = run_of(state, first + head);
        match step_of(so_far.state, last.event, last.shutdown) {
            Some(step) => {
                assert(so_far.actions.push(step.action) =~= run_of(state, first).actions + run_of(
                    middle,
                    head,
                ).actions.push(step.action));
            },
            None => {},
        }
    }
}

/// One full cycle with the flag down: the outcome is logged, the manager
/// waits, and the next check goes out. The manager is back where it was.
pub proof fn lemma_cycle(outcome: FetchOutcomeView)
    ensures
        run_of(ManagerState::Ticking, cycle(outcome, false)) == (Trace {
            state: ManagerState::Ticking,
            actions: seq![ActionView::Log(log_of(outcome)), ActionView::Wait, ActionView::Fetch],
        }),
{
    let fetched = Input { event: EventView::Fetched(outcome), shutdown: false };
    let logged = Input { event: EventView::Logged, shutdown: false };
    let tick = Input { event: EventView::TickElapsed, shutdown: false };
    let none = Seq::<Input>::empty();
    assert(cycle(outcome, false) =~= none.push(fetched).push(logged).push(tick));
    lemma_run_push(ManagerState::Ticking, none, fetched);
    lemma_run_push(ManagerState::Ticking, none.push(fetched), logged);
    lemma_run_push(ManagerState::Ticking, none.push(fetched).push(logged), tick);
    assert(run_of(ManagerState::Ticking, cycle(outcome, false)).actions =~= seq![
        ActionView::Log(log_of(outcome)),
        ActionView::Wait,
        ActionView::Fetch,
    ]);
}

/// A node that answers 200 with a body that decodes: the status is logged
/// as a success, with the time of the check, and the manager goes on to the
/// next check.
pub proof fn law_success_is_logged(body: Seq<char>, status: LnGetInfoView, at: Seq<char>)
    ensures
        triage_of(ReplyView::Answered { status: STATUS_OK, body }) == (TriageView::Decode { body }),
        log_of(conclusion_of(Ok(status), at)) == (LogEventView::Success { at, status }),
        run_of(ManagerState::Ticking, cycle(conclusion_of(Ok(status), at), false)) == (Trace {
            state: ManagerState::Ticking,
            actions: seq![
                ActionView::Log(LogEventView::Success { at, status }),
                ActionView::Wait,
                ActionView::Fetch,
            ],
        }),
{
    lemma_cycle(conclusion_of(Ok(status), at));
}

/// A node that answers with any status but 200: a failure is logged that
/// carries the body of the answer, and the manager goes on to the next
/// check.
pub proof fn law_rejection_is_logged(status: u16, body: Seq<char>)
    requires
        status != STATUS_OK,
    ensures
        triage_of(ReplyView::Answered { status, body }) == TriageView::Concluded(
            failure_of(FailureKind::Rejected, body),
        ),
        run_of(ManagerState::Ticking, cycle(failure_of(FailureKind::Rejected, body), false)) == (
        Trace {
            state: ManagerState::Ticking,
            actions: seq![
                ActionView::Log(LogEventView::Failure { kind: FailureKind::Rejected, message: body }),
                ActionView::Wait,
                ActionView::Fetch,
            ],
        }),
{
    lemma_cycle(failure_of(FailureKind::Rejected, body));
}

/// A node that cannot be reached: a transport failure is logged with the
/// transport's message, and the manager goes on to the next check.
pub proof fn law_transport_failure_is_logged(message: Seq<char>)
    ensures
        triage_of(ReplyView::Unreachable { message }) == TriageView::Concluded(
            failure_of(FailureKind::Transport, message),
        ),
        run_of(ManagerState::Ticking, cycle(failure_of(FailureKind::Transport, message), false))
            == (Trace {
            state: ManagerState::Ticking,
            actions: seq![
                ActionView::Log(LogEventView::Failure { kind: FailureKind::Transport, message }),
                ActionView::Wait,
                ActionView::Fetch,
            ],
        }),
{
    lemma_cycle(failure_of(FailureKind::Transport, message));
}

/// A body that does not decode: a decode failure is logged with the
/// decoder's message, and the manager goes on to the next check.
pub proof fn law_decode_failure_is_logged(message: Seq<char>, at: Seq<char>)
    ensures
        conclusion_of(Err(message), at) == failure_of(FailureKind::Decode, message),
        run_of(ManagerState::Ticking, cycle(conclusion_of(Err(message), at), false)) == (Trace {
            state: ManagerState::Ticking,
            actions: seq![
                ActionView::Log(LogEventView::Failure { kind: FailureKind::Decode, message }),
                ActionView::Wait,
                ActionView::Fetch,
            ],
        }),
{
    lemma_cycle(conclusion_of(Err(message), at));
}

/// Ticks do not build on one another: any number of cycles with the same
/// outcome log the same line every time, and leave the manager where it
/// was, with a check in flight. In particular a node that fails every
/// check is asked again and again, and the manager never stops by itself.
pub proof fn law_identical_ticks_log_identically(outcome: FetchOutcomeView, n: nat)
    ensures
        run_of(ManagerState::Ticking, cycles(outcome, n)) == (Trace {
            state: ManagerState::Ticking,
            actions: cycle_actions(outcome, n),
        }),
        cycle_actions(outcome, n).len() == 3 * n,
        forall|k: int|
            0 <= k < n ==> #[trigger] cycle_actions(outcome, n)[3 * k] == ActionView::Log(
                log_of(outcome),
            ),
    decreases n,
{
    if n == 0 {
        assert(run_of(ManagerState::Ticking, cycles(outcome, n)).actions =~= cycle_actions(
            outcome,
            n,
        ));
    } else {
        let m = (n - 1) as nat;
        law_identical_ticks_log_identically(outcome, m);
        lemma_run_concat(ManagerState::Ticking, cycles(outcome, m), cycle(outcome, false));
        lemma_cycle(outcome);
        assert forall|k: int| 0 <= k < n implies #[trigger] cycle_actions(outcome, n)[3 * k]
            == ActionView::Log(log_of(outcome)) by {
            if k < m {
                assert(cycle_actions(outcome, n)[3 * k] == cycle_actions(outcome, m)[3 * k]);
            }
        }
    }
}

/// The flag is looked at only where a check would go out: anywhere else its
/// value makes no difference to the move.
pub proof fn law_flag_matters_only_at_the_checkpoint(state: ManagerState, event: EventView)
    requires
        !checks_flag(state, event),
    ensures
        step_of(state, event, true) == step_of(state, event, false),
{
}

/// Where the flag is looked at, it decides: up, and the manager stops;
/// down, and the next check goes out.
pub proof fn law_flag_decides_at_the_checkpoint(state: ManagerState, event: EventView)
    requires
        checks_flag(state, event),
    ensures
        step_of(state, event, true) == Some(
            StepView { state: ManagerState::Stopped, action: ActionView::Finish },
        ),
        step_of(state, event, false) == Some(
            StepView { state: ManagerState::Ticking, action: ActionView::Fetch },
        ),
{
}

/// Checks never overlap: a check goes out only on entering `Ticking`, and
/// while one is in flight the manager takes nothing but its outcome.
pub proof fn law_one_check_at_a_time(state: ManagerState, event: EventView, shutdown: bool)
    ensures
        step_of(state, event, shutdown) matches Some(step) ==> (step.action is Fetch
            <==> step.state == ManagerState::Ticking),
        state == ManagerState::Ticking && step_of(state, event, shutdown) is Some
            ==> event is Fetched,
{
}

/// A stopped manager stays stopped and asks for nothing more.
pub proof fn law_stopped_is_final(inputs: Seq<Input>)
    ensures
        run_of(ManagerState::Stopped, inputs) == (Trace {
            state: ManagerState::Stopped,
            actions: Seq::empty(),
        }),
    decreases inputs.len(),
{
    if inputs.len() > 0 {
        law_stopped_is_final(inputs.drop_last());
    }
}

/// Only the flag stops a manager: while the flag is down no run reaches
/// `Stopped`, whatever the node answers.
pub proof fn law_only_the_flag_stops(state: ManagerState, inputs: Seq<Input>)
    requires
        state != ManagerState::Stopped,
        forall|i: int| 0 <= i < inputs.len() ==> !(#[trigger] inputs[i]).shutdown,
    ensures
        run_of(state, inputs).state != ManagerState::Stopped,
        forall|k: int|
            0 <= k < run_of(state, inputs).actions.len() ==> !(#[trigger] run_of(
                state,
                inputs,
            ).actions[k] is Finish),
    decreases inputs.len(),
{
    if inputs.len() > 0 {
        law_only_the_flag_stops(state, inputs.drop_last());
    }
}

/// Once the flag is up, no new check goes out. A check that is in flight is
/// allowed to come back and is logged; the manager then waits at most once,
/// and stops when the timer fires.
pub proof fn law_no_check_after_shutdown(state: ManagerState, inputs: Seq<Input>)
    requires
        forall|i: int| 0 <= i < inputs.len() ==> (#[trigger] inputs[i]).shutdown,
    ensures
        forall|k: int|
            0 <= k < run_of(state, inputs).actions.len() ==> !(#[trigger] run_of(
                state,
                inputs,
            ).actions[k] is Fetch),
        waits(run_of(state, inputs).actions) <= 1,
        waits(run_of(state, inputs).actions) == 1 ==> run_of(state, inputs).state
            == ManagerState::Waiting || run_of(state, inputs).state == ManagerState::Stopped,
    decreases inputs.len(),
{
    if inputs.len() > 0 {
        law_no_check_after_shutdown(state, inputs.drop_last());
        let before = run_of(state, inputs.drop_last());
        match step_of(before.state, inputs.last().event, inputs.last().shutdown) {
            Some(step) => {
                let after = before.actions.push(step.action);
                assert(after.drop_last() =~= before.actions);
                assert(after.last() == step.action);
            },
            None => {},
        }
    }
}

/// With the flag up, a check in flight ends the run in three moves: its
/// outcome is logged, the manager waits once, and stops.
pub proof fn law_shutdown_lets_the_check_finish(outcome: FetchOutcomeView)
    ensures
        run_of(ManagerState::Ticking, cycle(outcome, true)) == (Trace {
            state: ManagerState::Stopped,
            actions: seq![ActionView::Log(log_of(outcome)), ActionView::Wait, ActionView::Finish],
        }),
{
    let fetched = Input { event: EventView::Fetched(outcome), shutdown: true };
    let logged = Input { event: EventView::Logged, shutdown: true };
    let tick = Input { event: EventView::TickElapsed, shutdown: true };
    let none = Seq::<Input>::empty();
    assert(cycle(outcome, true) =~= none.push(fetched).push(logged).push(tick));
    lemma_run_push(ManagerState::Ticking, none, fetched);
    lemma_run_push(ManagerState::Ticking, none.push(fetched), logged);
    lemma_run_push(ManagerState::Ticking, none.push(fetched).push(logged), tick);
    assert(run_of(ManagerState::Ticking, cycle(outcome, true)).actions =~= seq![
        ActionView::Log(log_of(outcome)),
        ActionView::Wait,
        ActionView::Finish,
    ]);
}

/// A manager that is started with the flag already up stops at once: no
/// check goes out and nothing is logged.
pub proof fn law_shutdown_before_start()
    ensures
        run_of(ManagerState::Idle, seq![Input { event: EventView::Started, shutdown: true }]) == (
        Trace { state: ManagerState::Stopped, actions: seq![ActionView::Finish] }),
{
    let started = Input { event: EventView::Started, shutdown: true };
    let none = Seq::<Input>::empty();
    assert(seq![started] =~= none.push(started));
    lemma_run_push(ManagerState::Idle, none, started);
    assert(run_of(ManagerState::Idle, seq![started]).actions =~= seq![ActionView::Finish]);
}

} // verus!
