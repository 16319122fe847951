use vstd::prelude::*;
use vstd::multiset::Multiset;
use crate::config::{NetworkConfig, Role};
use crate::host::{host_rules, host_rules_concat, paired, plan_paired, plan_rollback_restores, rollback_restores};
use crate::session::{
    created, lemma_skip_silent, on_event, on_shutdown, on_start, pending, shutdown_action, skip_silent, wf_state, Action,
    CommandError, Event, Phase, SessionState, StartError,
};
use crate::steps::{applies, plan_of, undo_cmds, Command, ConfigStep, Rule};

verus! {

/// The state after the caller reports `events` in order.
pub open spec fn run(s: SessionState, events: Seq<Event>) -> SessionState
    decreases events.len(),
{
    if events.len() == 0 {
        s
    } else {
        run(on_event(s, events[0]), events.drop_first())
    }
}

/// `n` reports of a command that succeeded.
pub open spec fn successes(n: nat) -> Seq<Event> {
    Seq::new(n, |i: int| Event::CommandSucceeded)
}

/// The undo commands still owed by a session tearing down.
pub open spec fn owed_undos(s: SessionState) -> Seq<Command> {
    undo_cmds(s.ledger.take(s.remaining as int))
}

/// Reporting two event lists one after the other is reporting their concatenation.
pub proof fn run_concat(s: SessionState, a: Seq<Event>, b: Seq<Event>)
    ensures
        run(s, a + b) == run(run(s, a), b),
    decreases a.len(),
{
    if a.len() == 0 {
        assert(a + b =~= b);
    } else {
        assert((a + b)[0] == a[0]);
        assert((a + b).drop_first() =~= a.drop_first() + b);
        run_concat(on_event(s, a[0]), a.drop_first(), b);
    }
}

proof fn successes_step(n: nat)
    requires
        n > 0,
    ensures
        successes(n)[0] == Event::CommandSucceeded,
        successes(n).drop_first() == successes((n - 1) as nat),
{
    assert(successes(n).drop_first() =~= successes((n - 1) as nat));
}

proof fn applies_take_next(steps: Seq<ConfigStep>, i: int)
    requires
        0 <= i < steps.len(),
    ensures
        applies(steps.take(i + 1)) == applies(steps.take(i)).push(steps[i].apply),
{
    assert(applies(steps.take(i + 1)) =~= applies(steps.take(i)).push(steps[i].apply));
}

/// While starting, each success records one step and asks for the next apply command;
/// the last one makes the session active.
proof fn lemma_apply_run(s: SessionState, j: nat)
    requires
        wf_state(s),
        s.phase == Phase::Starting,
        s.device_held,
        !s.shutdown_requested,
        s.ledger.len() + j <= s.steps.len(),
        s.ledger.len() < s.steps.len(),
        s.trace == applies(s.steps.take(s.ledger.len() as int + 1)),
    ensures
        ({
            let t = run(s, successes(j));
            let k = (s.ledger.len() + j) as int;
            &&& wf_state(t)
            &&& t.ledger == s.steps.take(k)
            &&& k < s.steps.len() ==> t == (SessionState {
                ledger: s.steps.take(k),
                trace: applies(s.steps.take(k as int + 1)),
                ..s
            })
            &&& k == s.steps.len() ==> t == (SessionState {
                phase: Phase::Active,
                ledger: s.steps,
                trace: applies(s.steps),
                ..s
            })
        }),
    decreases j,
{
    if j == 0 {
        assert(s.ledger == s.steps.take(s.ledger.len() as int));
    } else {
        successes_step(j);
        let i = s.ledger.len() as int;
        let s1 = on_event(s, Event::CommandSucceeded);
        assert(s.ledger.push(s.steps[i]) =~= s.steps.take(i + 1));
        if i + 1 < s.steps.len() {
            applies_take_next(s.steps, i + 1);
            assert(s1 == (SessionState {
                ledger: s.steps.take(i + 1),
                trace: applies(s.steps.take(i + 2)),
                ..s
            }));
            lemma_apply_run(s1, (j - 1) as nat);
        } else {
            assert(s.steps.take(i + 1) =~= s.steps);
            assert(successes((j - 1) as nat) =~= Seq::<Event>::empty());
        }
    }
}

/// While tearing down, each success asks for the next owed undo command; once none
/// is owed the device is to be released.
proof fn lemma_undo_run(s: SessionState)
    requires
        wf_state(s),
        s.phase == Phase::Stopping,
        s.remaining > 0,
    ensures
        owed_undos(s).len() > 0,
        pending(s) == Action::Run(owed_undos(s)[0]),
        run(s, successes(owed_undos(s).len())) == (SessionState {
            remaining: 0,
            trace: s.trace + owed_undos(s).drop_first(),
            ..s
        }),
    decreases s.remaining,
{
    let r = s.remaining;
    let c = s.ledger[r - 1].undo.unwrap();
    let init = s.ledger.take(r - 1);
    assert(s.ledger.take(r as int).drop_last() =~= init);
    assert(s.ledger.take(r as int).last() == s.ledger[r - 1]);
    assert(owed_undos(s) == seq![c] + undo_cmds(init));
    lemma_skip_silent(s.ledger, (r - 1) as nat);
    let r1 = skip_silent(s.ledger, (r - 1) as nat);
    let s1 = on_event(s, Event::CommandSucceeded);
    let n = owed_undos(s).len();
    successes_step(n);
    assert(owed_undos(s).drop_first() =~= undo_cmds(init));
    assert(run(s, successes(n)) == run(s1, successes((n - 1) as nat)));
    if r1 > 0 {
        let u = SessionState { remaining: r1, ..s };
        assert(owed_undos(u) == undo_cmds(init));
        lemma_undo_run(u);
        assert(s1 == SessionState { trace: s.trace.push(owed_undos(u)[0]), ..u });
        lemma_undo_run(s1);
        assert(owed_undos(s1) == owed_undos(u));
        assert(s.trace.push(owed_undos(u)[0]) + owed_undos(u).drop_first() =~= s.trace + owed_undos(u));
        assert(run(s1, successes((n - 1) as nat)) == (SessionState {
            remaining: 0,
            trace: s.trace + owed_undos(s).drop_first(),
            ..s
        }));
    } else {
        assert(init.take(0) =~= Seq::<ConfigStep>::empty());
        assert(s.ledger.take(0) =~= Seq::<ConfigStep>::empty());
        assert(undo_cmds(Seq::<ConfigStep>::empty()) == Seq::<Command>::empty());
        assert(successes((n - 1) as nat) =~= Seq::<Event>::empty());
        assert(s.trace + owed_undos(s).drop_first() =~= s.trace);
    }
}

proof fn run_one(s: SessionState, e: Event)
    ensures
        run(s, seq![e]) == on_event(s, e),
{
    assert(seq![e].drop_first() =~= Seq::<Event>::empty());
    assert(seq![e][0] == e);
    assert(run(on_event(s, e), Seq::<Event>::empty()) == on_event(s, e));
}

/// The state of a new session once started and its device reported ready.
proof fn lemma_device_ready(role: Role, cfg: NetworkConfig)
    requires
        cfg.valid_for(role),
    ensures
        ({
            let s1 = on_event(on_start(created(role, cfg)), Event::DeviceReady);
            &&& wf_state(s1)
            &&& s1.phase == Phase::Starting
            &&& s1.device_held
            &&& !s1.shutdown_requested
            &&& s1.ledger.len() == 0
            &&& s1.failure is None
            &&& s1.errors.len() == 0
            &&& s1.trace == applies(s1.steps.take(1))
            &&& s1.steps == plan_of(role, cfg)
        }),
{
    let steps = plan_of(role, cfg);
    assert(Seq::<ConfigStep>::empty() =~= steps.take(0));
    assert(applies(steps.take(1)) =~= seq![steps[0].apply]);
    assert(Seq::<Command>::empty().push(steps[0].apply) =~= seq![steps[0].apply]);
}

/// Stopping twice in a row: the second call changes nothing and returns no action,
/// so no command runs for it; on a stopped session `stop` leaves nothing to do.
pub proof fn stop_twice_is_idle(s: SessionState)
    requires
        wf_state(s),
    ensures
        on_shutdown(on_shutdown(s)) == on_shutdown(s),
        shutdown_action(on_shutdown(s)) == Action::Idle,
        s.phase == Phase::Stopped ==> on_shutdown(s) == s && pending(s) == Action::Idle,
{
}

/// Starting a session, reporting every command a success, then stopping it and
/// reporting every undo a success: the session asks for each apply command in plan
/// order and then each undo command in reverse order, ends stopped with no error,
/// and the host's routing and NAT rules are back as they were.
pub proof fn start_then_stop_restores(role: Role, cfg: NetworkConfig, m: Multiset<Rule>)
    requires
        cfg.valid_for(role),
    ensures
        ({
            let steps = plan_of(role, cfg);
            let active = run(on_start(created(role, cfg)), seq![Event::DeviceReady] + successes(steps.len()));
            let stopped = run(on_shutdown(active), successes(undo_cmds(steps).len()) + seq![Event::DeviceReleased]);
            &&& active.phase == Phase::Active
            &&& active.ledger == steps
            &&& active.trace == applies(steps)
            &&& stopped.phase == Phase::Stopped
            &&& !stopped.device_held
            &&& stopped.failure is None
            &&& stopped.errors.len() == 0
            &&& stopped.trace == applies(steps) + undo_cmds(steps)
            &&& host_rules(m, stopped.trace) == m
        }),
{
    let steps = plan_of(role, cfg);
    let n = steps.len();
    let s0 = on_start(created(role, cfg));
    lemma_device_ready(role, cfg);
    let s1 = on_event(s0, Event::DeviceReady);
    run_concat(s0, seq![Event::DeviceReady], successes(n));
    run_one(s0, Event::DeviceReady);
    lemma_apply_run(s1, n);
    let active = run(s1, successes(n));
    assert(steps.take(n as int) =~= steps);
    lemma_skip_silent(steps, n);
    let s2 = on_shutdown(active);
    assert(s2.remaining == n);
    lemma_undo_run(s2);
    assert(owed_undos(s2) == undo_cmds(steps));
    let u = undo_cmds(steps);
    run_concat(s2, successes(u.len()), seq![Event::DeviceReleased]);
    let s3 = run(s2, successes(u.len()));
    run_one(s3, Event::DeviceReleased);
    assert(applies(steps).push(u[0]) + u.drop_first() =~= applies(steps) + u);
    host_rules_concat(m, applies(steps), u);
    plan_rollback_restores(role, cfg, m);
}

/// When the apply command of step `k` fails while starting and every undo then
/// succeeds: exactly the steps before `k` are undone, last first; step `k` is not in
/// the ledger; the session reports the failure of step `k` itself and no teardown
/// error; and the rules those steps added are gone again.
pub proof fn failed_start_rolls_back(role: Role, cfg: NetworkConfig, k: nat, error: CommandError, m: Multiset<Rule>)
    requires
        cfg.valid_for(role),
        k < plan_of(role, cfg).len(),
    ensures
        ({
            let steps = plan_of(role, cfg);
            let before = steps.take(k as int);
            let failed = run(
                on_start(created(role, cfg)),
                seq![Event::DeviceReady] + successes(k) + seq![Event::CommandFailed(error)],
            );
            let stopped = run(failed, successes(undo_cmds(before).len()) + seq![Event::DeviceReleased]);
            &&& failed.phase == Phase::Stopping
            &&& stopped.phase == Phase::Stopped
            &&& !stopped.device_held
            &&& stopped.ledger == before
            &&& stopped.failure == Some(StartError::Command { step: k as usize, error })
            &&& stopped.errors.len() == 0
            &&& stopped.trace == applies(steps.take(k as int + 1)) + undo_cmds(before)
            &&& host_rules(m, applies(before) + undo_cmds(before)) == m
        }),
{
    let steps = plan_of(role, cfg);
    let before = steps.take(k as int);
    let s0 = on_start(created(role, cfg));
    lemma_device_ready(role, cfg);
    let s1 = on_event(s0, Event::DeviceReady);
    run_concat(s0, seq![Event::DeviceReady] + successes(k), seq![Event::CommandFailed(error)]);
    run_concat(s0, seq![Event::DeviceReady], successes(k));
    run_one(s0, Event::DeviceReady);
    lemma_apply_run(s1, k);
    let t = run(s1, successes(k));
    run_one(t, Event::CommandFailed(error));
    let failed = on_event(t, Event::CommandFailed(error));
    lemma_skip_silent(before, k);
    let u = undo_cmds(before);
    assert(before.take(k as int) =~= before);
    assert(owed_undos(failed) == u);
    run_concat(failed, successes(u.len()), seq![Event::DeviceReleased]);
    if failed.remaining > 0 {
        lemma_undo_run(failed);
        let s3 = run(failed, successes(u.len()));
        run_one(s3, Event::DeviceReleased);
        assert(applies(steps.take(k as int + 1)).push(u[0]) + u.drop_first() =~= applies(steps.take(k as int + 1)) + u);
    } else {
        assert(before.take(0) =~= Seq::<ConfigStep>::empty());
        assert(undo_cmds(Seq::<ConfigStep>::empty()) == Seq::<Command>::empty());
        assert(successes(0) =~= Seq::<Event>::empty());
        run_one(failed, Event::DeviceReleased);
        assert(applies(steps.take(k as int + 1)) + u =~= applies(steps.take(k as int + 1)));
    }
    plan_paired(role, cfg);
    assert forall|i: int| 0 <= i < before.len() implies paired(#[trigger] before[i]) by {
        assert(before[i] == steps[i]);
    }
    rollback_restores(m, before);
    host_rules_concat(m, applies(before), u);
}

} // verus!
