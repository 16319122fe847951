use vstd::prelude::*;
use crate::cidr::Cidr;
use crate::config::{NetworkConfig, Role};

verus! {

/// Which traffic a NAT or FORWARD rule matches.
#[derive(Clone, Copy, Debug, PartialEq, Eq, Structural)]
pub enum Scope {
    /// Traffic on the tunnel device.
    Device,
    /// Traffic from or to a subnet.
    Subnet(Cidr),
}

/// One entry of the host's routing table or packet filter.
#[derive(Clone, Copy, Debug, PartialEq, Eq, Structural)]
pub enum Rule {
    /// Source NAT (MASQUERADE) for outbound traffic.
    Masquerade(Scope),
    /// Accept forwarded packets of related or established connections.
    ForwardEstablished(Scope),
    /// Accept forwarded packets.
    ForwardAccept(Scope),
    /// A route to this host through the previous default gateway.
    HostRoute(u32),
    /// A route for this block through the tunnel device.
    DeviceRoute(Cidr),
}

/// One external network-configuration command, as data.
#[derive(Clone, Copy, Debug, PartialEq, Eq, Structural)]
pub enum Command {
    /// Give the tunnel device an address and MTU and bring it up.
    AssignAddress { address: Cidr, mtu: u32 },
    /// Turn on IPv4 forwarding host-wide.
    EnableForwarding,
    /// Add a rule.
    Insert(Rule),
    /// Remove a rule.
    Remove(Rule),
}

/// How a command is to be run: waited for with its exit status checked, or only
/// spawned.
#[derive(Clone, Copy, Debug, PartialEq, Eq, Structural)]
pub enum RunMode {
    Blocking,
    FireAndForget,
}

/// Turning on forwarding is an advisory host-wide tweak and is only spawned;
/// every other command is waited for.
pub open spec fn mode_of(c: Command) -> RunMode {
    match c {
        Command::EnableForwarding => RunMode::FireAndForget,
        _ => RunMode::Blocking,
    }
}

/// How `c` is to be run.
pub fn run_mode(c: Command) -> (r: RunMode)
    ensures
        r == mode_of(c),
{
    match c {
        Command::EnableForwarding => RunMode::FireAndForget,
        _ => RunMode::Blocking,
    }
}

/// The part of the configuration a step belongs to, in dependency order.
#[derive(Clone, Copy, Debug, PartialEq, Eq, Structural)]
pub enum Stage {
    Address,
    Forwarding,
    Nat,
    Filter,
    ServerRoute,
    SplitRoute,
}

/// A unit of host configuration and the command that reverses it, if any.
#[derive(Clone, Copy, Debug, PartialEq, Eq, Structural)]
pub struct ConfigStep {
    pub stage: Stage,
    pub apply: Command,
    pub undo: Option<Command>,
}

/// A step that adds `rule` and is undone by removing it.
pub open spec fn rule_step(stage: Stage, rule: Rule) -> ConfigStep {
    ConfigStep { stage, apply: Command::Insert(rule), undo: Some(Command::Remove(rule)) }
}

/// The lower half of the address space, `0.0.0.0/1`.
pub open spec fn lower_half() -> Cidr {
    Cidr { addr: 0, prefix: 1 }
}

/// The upper half of the address space, `128.0.0.0/1`.
pub open spec fn upper_half() -> Cidr {
    Cidr { addr: 0x8000_0000, prefix: 1 }
}

/// The ordered steps that configure the host for `role`.
pub open spec fn plan_of(role: Role, cfg: NetworkConfig) -> Seq<ConfigStep> {
    match role {
        Role::Client => seq![
            ConfigStep {
                stage: Stage::Address,
                apply: Command::AssignAddress { address: cfg.client_address, mtu: cfg.mtu },
                undo: None,
            },
            ConfigStep { stage: Stage::Forwarding, apply: Command::EnableForwarding, undo: None },
            rule_step(Stage::Nat, Rule::Masquerade(Scope::Device)),
            rule_step(Stage::Filter, Rule::ForwardEstablished(Scope::Device)),
            rule_step(Stage::Filter, Rule::ForwardAccept(Scope::Device)),
            rule_step(Stage::ServerRoute, Rule::HostRoute(cfg.server_host.unwrap())),
            rule_step(Stage::SplitRoute, Rule::DeviceRoute(lower_half())),
            rule_step(Stage::SplitRoute, Rule::DeviceRoute(upper_half())),
        ],
        Role::Server => seq![
            ConfigStep {
                stage: Stage::Address,
                apply: Command::AssignAddress { address: cfg.server_address, mtu: cfg.mtu },
                undo: None,
            },
            ConfigStep { stage: Stage::Forwarding, apply: Command::EnableForwarding, undo: None },
            rule_step(Stage::Nat, Rule::Masquerade(Scope::Subnet(cfg.tunnel_subnet))),
            rule_step(Stage::Filter, Rule::ForwardEstablished(Scope::Subnet(cfg.tunnel_subnet))),
            rule_step(Stage::Filter, Rule::ForwardAccept(Scope::Subnet(cfg.tunnel_subnet))),
        ],
    }
}

/// The commands that apply `steps`, in order.
pub open spec fn applies(steps: Seq<ConfigStep>) -> Seq<Command> {
    steps.map_values(|st: ConfigStep| st.apply)
}

/// The undo commands of `steps`, last step first; steps without one are passed over.
pub open spec fn undo_cmds(steps: Seq<ConfigStep>) -> Seq<Command>
    decreases steps.len(),
{
    if steps.len() == 0 {
        Seq::empty()
    } else {
        let rest = undo_cmds(steps.drop_last());
        match steps.last().undo {
            Some(c) => seq![c] + rest,
            None => rest,
        }
    }
}

/// In every plan the address assignment comes first, and no other step assigns an address.
pub proof fn address_step_first(role: Role, cfg: NetworkConfig)
    ensures
        plan_of(role, cfg).len() > 0,
        plan_of(role, cfg)[0].apply is AssignAddress,
        plan_of(role, cfg)[0].stage == Stage::Address,
        forall|i: int| 1 <= i < plan_of(role, cfg).len() ==> !(plan_of(role, cfg)[i].apply is AssignAddress),
{
}

/// The undo sequence of a step list is that of its tail followed by that of its head:
/// undo commands come in exactly the reverse order of their steps.
pub proof fn undo_order_reversed(a: Seq<ConfigStep>, b: Seq<ConfigStep>)
    ensures
        undo_cmds(a + b) == undo_cmds(b) + undo_cmds(a),
    decreases b.len(),
{
    if b.len() == 0 {
        assert(a + b =~= a);
        assert(undo_cmds(b) + undo_cmds(a) =~= undo_cmds(a));
    } else {
        assert((a + b).drop_last() =~= a + b.drop_last());
        assert((a + b).last() == b.last());
        undo_order_reversed(a, b.drop_last());
        match b.last().undo {
            Some(c) => {
                assert(seq![c] + (undo_cmds(b.drop_last()) + undo_cmds(a))
                    =~= (seq![c] + undo_cmds(b.drop_last())) + undo_cmds(a));
            },
            None => {},
        }
    }
}

/// A single step contributes its own undo command, or nothing.
pub proof fn undo_of_one(st: ConfigStep)
    ensures
        undo_cmds(seq![st]) == (match st.undo {
            Some(c) => seq![c],
            None => Seq::<Command>::empty(),
        }),
{
    assert(seq![st].drop_last() =~= Seq::<ConfigStep>::empty());
    assert(seq![st].last() == st);
    assert(undo_cmds(Seq::<ConfigStep>::empty()) == Seq::<Command>::empty());
    match st.undo {
        Some(c) => {
            assert(seq![c] + Seq::<Command>::empty() =~= seq![c]);
        },
        None => {},
    }
}

fn reversible(stage: Stage, rule: Rule) -> (r: ConfigStep)
    ensures
        r == rule_step(stage, rule),
{
    ConfigStep { stage, apply: Command::Insert(rule), undo: Some(Command::Remove(rule)) }
}

/// The first step for `role`: give the device its address and MTU and bring it up.
/// It has no undo command: releasing the device takes the address with it.
pub fn ifconfig(role: Role, cfg: &NetworkConfig) -> (r: ConfigStep)
    ensures
        r == plan_of(role, *cfg)[0],
{
    let address = match role {
        Role::Client => cfg.client_address,
        Role::Server => cfg.server_address,
    };
    ConfigStep { stage: Stage::Address, apply: Command::AssignAddress { address, mtu: cfg.mtu }, undo: None }
}

/// The steps for `role` after the address: forwarding, NAT, FORWARD rules and,
/// for the client, the routes that send its traffic through the tunnel.
pub fn setup_route_table(role: Role, cfg: &NetworkConfig) -> (r: Vec<ConfigStep>)
    requires
        role == Role::Client ==> cfg.server_host is Some,
    ensures
        r@ == plan_of(role, *cfg).drop_first(),
{
    let mut v: Vec<ConfigStep> = Vec::new();
    v.push(ConfigStep { stage: Stage::Forwarding, apply: Command::EnableForwarding, undo: None });
    match role {
        Role::Client => {
            let host = match cfg.server_host {
                Some(h) => h,
                None => 0,
            };
            v.push(reversible(Stage::Nat, Rule::Masquerade(Scope::Device)));
            v.push(reversible(Stage::Filter, Rule::ForwardEstablished(Scope::Device)));
            v.push(reversible(Stage::Filter, Rule::ForwardAccept(Scope::Device)));
            v.push(reversible(Stage::ServerRoute, Rule::HostRoute(host)));
            v.push(reversible(Stage::SplitRoute, Rule::DeviceRoute(Cidr { addr: 0, prefix: 1 })));
            v.push(reversible(Stage::SplitRoute, Rule::DeviceRoute(Cidr { addr: 0x8000_0000, prefix: 1 })));
        },
        Role::Server => {
            let subnet = cfg.tunnel_subnet;
            v.push(reversible(Stage::Nat, Rule::Masquerade(Scope::Subnet(subnet))));
            v.push(reversible(Stage::Filter, Rule::ForwardEstablished(Scope::Subnet(subnet))));
            v.push(reversible(Stage::Filter, Rule::ForwardAccept(Scope::Subnet(subnet))));
        },
    }
    assert(v@ =~= plan_of(role, *cfg).drop_first());
    v
}

/// The ordered configuration steps for `role`.
pub fn plan(role: Role, cfg: &NetworkConfig) -> (r: Vec<ConfigStep>)
    requires
        role == Role::Client ==> cfg.server_host is Some,
    ensures
        r@ == plan_of(role, *cfg),
{
    let mut v: Vec<ConfigStep> = Vec::new();
    v.push(ifconfig(role, cfg));
    let mut rest = setup_route_table(role, cfg);
    v.append(&mut rest);
    assert(v@ =~= plan_of(role, *cfg));
    v
}

/// The commands that clean up after `ledger`, as when the process exits on a
/// signal: each step's undo, last step first.
pub fn cleanup_when_sig_exit(ledger: &Vec<ConfigStep>) -> (r: Vec<Command>)
    ensures
        r@ == undo_cmds(ledger@),
{
    let mut out: Vec<Command> = Vec::new();
    let mut i: usize = ledger.len();
    assert(ledger@.take(i as int) =~= ledger@);
    assert(out@ + undo_cmds(ledger@) =~= undo_cmds(ledger@));
    while i > 0
        invariant
            i <= ledger@.len(),
            out@ + undo_cmds(ledger@.take(i as int)) == undo_cmds(ledger@),
        decreases i,
    {
        let ghost prefix = ledger@.take(i as int);
        assert(prefix.drop_last() =~= ledger@.take(i - 1));
        i = i - 1;
        match ledger[i].undo {
            Some(c) => {
                out.push(c);
            },
            None => {},
        }
        assert(out@ + undo_cmds(ledger@.take(i as int)) =~= undo_cmds(ledger@));
    }
    assert(ledger@.take(0) =~= Seq::<ConfigStep>::empty());
    assert(out@ =~= out@ + undo_cmds(ledger@.take(0)));
    out
}

} // verus!
