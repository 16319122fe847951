use vstd::prelude::*;
use vstd::multiset::Multiset;
use crate::config::{NetworkConfig, Role};
use crate::steps::{applies, plan_of, undo_cmds, Command, ConfigStep, Rule};

verus! {

/// The routing and NAT rules present after `c` ran on a host holding `m`.
pub open spec fn rule_effect(m: Multiset<Rule>, c: Command) -> Multiset<Rule> {
    match c {
        Command::Insert(r) => m.insert(r),
        Command::Remove(r) => m.remove(r),
        _ => m,
    }
}

/// The routing and NAT rules present after `cmds` ran in order on a host holding `m`.
pub open spec fn host_rules(m: Multiset<Rule>, cmds: Seq<Command>) -> Multiset<Rule>
    decreases cmds.len(),
{
    if cmds.len() == 0 {
        m
    } else {
        rule_effect(host_rules(m, cmds.drop_last()), cmds.last())
    }
}

/// The step adds a rule and its undo removes that rule, or it touches no rule and has no undo.
pub open spec fn paired(st: ConfigStep) -> bool {
    match st.apply {
        Command::Insert(r) => st.undo == Some(Command::Remove(r)),
        Command::Remove(_) => false,
        _ => st.undo is None,
    }
}

/// Running two command lists one after the other is running their concatenation.
pub proof fn host_rules_concat(m: Multiset<Rule>, a: Seq<Command>, b: Seq<Command>)
    ensures
        host_rules(m, a + b) == host_rules(host_rules(m, a), b),
    decreases b.len(),
{
    if b.len() == 0 {
        assert(a + b =~= a);
    } else {
        assert((a + b).drop_last() =~= a + b.drop_last());
        assert((a + b).last() == b.last());
        host_rules_concat(m, a, b.drop_last());
    }
}

proof fn host_rules_one(m: Multiset<Rule>, c: Command)
    ensures
        host_rules(m, seq![c]) == rule_effect(m, c),
{
    assert(seq![c].drop_last() =~= Seq::<Command>::empty());
    assert(host_rules(m, Seq::<Command>::empty()) == m);
    assert(seq![c].last() == c);
}

/// Applying paired steps and then their undo commands leaves the rules as they were.
pub proof fn rollback_restores(m: Multiset<Rule>, steps: Seq<ConfigStep>)
    requires
        forall|i: int| 0 <= i < steps.len() ==> paired(#[trigger] steps[i]),
    ensures
        host_rules(host_rules(m, applies(steps)), undo_cmds(steps)) == m,
    decreases steps.len(),
{
    if steps.len() == 0 {
        assert(applies(steps) =~= Seq::<Command>::empty());
    } else {
        let init = steps.drop_last();
        let st = steps.last();
        assert(paired(steps[steps.len() - 1]));
        rollback_restores(m, init);
        assert(applies(steps) =~= applies(init) + seq![st.apply]);
        host_rules_concat(m, applies(init), seq![st.apply]);
        let mid = host_rules(m, applies(init));
        host_rules_one(mid, st.apply);
        match st.apply {
            Command::Insert(r) => {
                let after = mid.insert(r);
                assert(after.remove(r) =~= mid);
                assert(undo_cmds(steps) == seq![Command::Remove(r)] + undo_cmds(init));
                host_rules_concat(after, seq![Command::Remove(r)], undo_cmds(init));
                host_rules_one(after, Command::Remove(r));
            },
            _ => {
                assert(undo_cmds(steps) == undo_cmds(init));
            },
        }
    }
}

/// Every step of every plan is paired.
pub proof fn plan_paired(role: Role, cfg: NetworkConfig)
    ensures
        forall|i: int| 0 <= i < plan_of(role, cfg).len() ==> paired(#[trigger] plan_of(role, cfg)[i]),
{
}

/// Applying a whole plan and then its undo commands leaves the host's routing and NAT
/// rules as they were; only the host-wide forwarding flag stays turned on.
pub proof fn plan_rollback_restores(role: Role, cfg: NetworkConfig, m: Multiset<Rule>)
    ensures
        host_rules(host_rules(m, applies(plan_of(role, cfg))), undo_cmds(plan_of(role, cfg))) == m,
{
    plan_paired(role, cfg);
    rollback_restores(m, plan_of(role, cfg));
}

} // verus!
