use tunnel_setup::{
    ipv4, plan, Action, Cidr, Command, CommandError, ConfigError, Event, NetworkConfig, Phase, Role, Rule,
    StartError, TeardownError, TunnelSession,
};

fn cidr(a: u8, b: u8, c: u8, d: u8, prefix: u8) -> Cidr {
    Cidr::new(ipv4(a, b, c, d), prefix).unwrap()
}

fn sample() -> NetworkConfig {
    NetworkConfig::new(
        cidr(10, 8, 0, 2, 16),
        cidr(10, 8, 0, 1, 16),
        cidr(10, 8, 0, 0, 16),
        Some(ipv4(203, 0, 113, 5)),
    )
}

/// A stand-in host: the rules present, and every command run.
struct FakeHost {
    rules: Vec<Rule>,
    forwarding: bool,
    ran: Vec<Command>,
    acquisitions: usize,
    device_up: bool,
    fail_at_call: Option<usize>,
    device_fails: bool,
}

impl FakeHost {
    fn new(rules: Vec<Rule>) -> FakeHost {
        FakeHost {
            rules,
            forwarding: false,
            ran: Vec::new(),
            acquisitions: 0,
            device_up: false,
            fail_at_call: None,
            device_fails: false,
        }
    }

    fn run(&mut self, c: Command) -> Event {
        let call = self.ran.len();
        self.ran.push(c);
        if self.fail_at_call == Some(call) {
            return Event::CommandFailed(CommandError::NonZeroExit(1));
        }
        match c {
            Command::Insert(r) => self.rules.push(r),
            Command::Remove(r) => match self.rules.iter().position(|x| *x == r) {
                Some(i) => {
                    self.rules.remove(i);
                },
                None => return Event::CommandFailed(CommandError::NonZeroExit(2)),
            },
            Command::EnableForwarding => self.forwarding = true,
            Command::AssignAddress { .. } => {},
        }
        Event::CommandSucceeded
    }

    /// Carries out actions until the session waits on nothing.
    fn drive(&mut self, s: &mut TunnelSession, first: Action) {
        let mut a = first;
        loop {
            let e = match a {
                Action::Idle => return,
                Action::AcquireDevice => {
                    self.acquisitions += 1;
                    if self.device_fails {
                        Event::DeviceUnavailable
                    } else {
                        self.device_up = true;
                        Event::DeviceReady
                    }
                },
                Action::Run(c) => self.run(c),
                Action::ReleaseDevice => {
                    self.device_up = false;
                    Event::DeviceReleased
                },
            };
            a = s.handle(e);
        }
    }
}

fn sorted(mut v: Vec<Rule>) -> Vec<String> {
    let mut out: Vec<String> = v.drain(..).map(|r| format!("{:?}", r)).collect();
    out.sort();
    out
}

#[test]
fn start_then_stop_restores_rules_for_both_roles() {
    for role in [Role::Client, Role::Server] {
        let existing = vec![Rule::DeviceRoute(cidr(192, 168, 1, 0, 24)), Rule::HostRoute(ipv4(8, 8, 8, 8))];
        let mut host = FakeHost::new(existing.clone());
        let mut s = TunnelSession::new(role, sample()).unwrap();
        let a = s.start();
        host.drive(&mut s, a);
        assert_eq!(s.phase(), Phase::Active);
        assert_eq!(s.ledger(), &plan(role, &sample())[..]);
        let a = s.stop();
        host.drive(&mut s, a);
        assert_eq!(s.phase(), Phase::Stopped);
        assert_eq!(sorted(host.rules.clone()), sorted(existing));
        assert!(host.forwarding);
        assert!(!host.device_up);
        assert_eq!(s.failure(), None);
        assert!(s.teardown_errors().is_empty());
    }
}

#[test]
fn client_scenario_stop_order() {
    let mut host = FakeHost::new(Vec::new());
    let mut s = TunnelSession::new(Role::Client, sample()).unwrap();
    let a = s.start();
    host.drive(&mut s, a);
    assert_eq!(host.ran.len(), 8);
    let applied = host.ran.len();
    let a = s.stop();
    host.drive(&mut s, a);
    let removed: Vec<Command> = host.ran[applied..].to_vec();
    assert_eq!(
        removed,
        vec![
            Command::Remove(Rule::DeviceRoute(cidr(128, 0, 0, 0, 1))),
            Command::Remove(Rule::DeviceRoute(cidr(0, 0, 0, 0, 1))),
            Command::Remove(Rule::HostRoute(ipv4(203, 0, 113, 5))),
            Command::Remove(Rule::ForwardAccept(tunnel_setup::Scope::Device)),
            Command::Remove(Rule::ForwardEstablished(tunnel_setup::Scope::Device)),
            Command::Remove(Rule::Masquerade(tunnel_setup::Scope::Device)),
        ]
    );
}

#[test]
fn failure_at_step_rolls_back_earlier_steps() {
    // The fifth step (index 4) fails: steps 0..4 stay in the ledger and are undone.
    let mut host = FakeHost::new(Vec::new());
    host.fail_at_call = Some(4);
    let mut s = TunnelSession::new(Role::Client, sample()).unwrap();
    let steps = plan(Role::Client, &sample());
    let a = s.start();
    host.drive(&mut s, a);
    assert_eq!(s.phase(), Phase::Stopped);
    assert_eq!(s.ledger(), &steps[..4]);
    assert_eq!(
        s.failure(),
        Some(StartError::Command { step: 4, error: CommandError::NonZeroExit(1) })
    );
    assert!(s.teardown_errors().is_empty());
    assert_eq!(
        host.ran[5..].to_vec(),
        vec![steps[3].undo.unwrap(), steps[2].undo.unwrap()]
    );
    assert!(host.rules.is_empty());
    assert!(!host.device_up);
}

#[test]
fn failure_at_first_step_undoes_nothing() {
    let mut host = FakeHost::new(Vec::new());
    host.fail_at_call = Some(0);
    let mut s = TunnelSession::new(Role::Server, sample()).unwrap();
    let a = s.start();
    host.drive(&mut s, a);
    assert_eq!(host.ran.len(), 1);
    assert!(s.ledger().is_empty());
    assert_eq!(s.failure(), Some(StartError::Command { step: 0, error: CommandError::NonZeroExit(1) }));
    assert_eq!(s.phase(), Phase::Stopped);
}

#[test]
fn stop_twice_runs_nothing_the_second_time() {
    let mut host = FakeHost::new(Vec::new());
    let mut s = TunnelSession::new(Role::Server, sample()).unwrap();
    let a = s.start();
    host.drive(&mut s, a);
    let a = s.stop();
    host.drive(&mut s, a);
    let count = host.ran.len();
    let a = s.stop();
    assert_eq!(a, Action::Idle);
    host.drive(&mut s, a);
    assert_eq!(host.ran.len(), count);
    assert_eq!(s.phase(), Phase::Stopped);
    assert!(s.teardown_errors().is_empty());
}

#[test]
fn same_addresses_are_refused_before_anything_runs() {
    let mut cfg = sample();
    cfg.server_address = cfg.client_address;
    assert_eq!(TunnelSession::new(Role::Client, cfg).err(), Some(ConfigError::SameAddress));
    assert_eq!(TunnelSession::new(Role::Server, cfg).err(), Some(ConfigError::SameAddress));
}

#[test]
fn missing_server_host_refused_for_client_only() {
    let mut cfg = sample();
    cfg.server_host = None;
    assert_eq!(TunnelSession::new(Role::Client, cfg).err(), Some(ConfigError::MissingServerHost));
    assert!(TunnelSession::new(Role::Server, cfg).is_ok());
}

#[test]
fn device_unavailable_ends_start_without_commands() {
    let mut host = FakeHost::new(Vec::new());
    host.device_fails = true;
    let mut s = TunnelSession::new(Role::Client, sample()).unwrap();
    let a = s.start();
    assert_eq!(a, Action::AcquireDevice);
    host.drive(&mut s, a);
    assert_eq!(host.acquisitions, 1);
    assert!(host.ran.is_empty());
    assert_eq!(s.failure(), Some(StartError::DeviceUnavailable));
    assert_eq!(s.phase(), Phase::Stopped);
}

#[test]
fn teardown_goes_on_after_a_failed_undo() {
    let mut host = FakeHost::new(Vec::new());
    let mut s = TunnelSession::new(Role::Server, sample()).unwrap();
    let a = s.start();
    host.drive(&mut s, a);
    // Someone removed the masquerade rule behind the session's back.
    let masq = host.rules.iter().position(|r| matches!(r, Rule::Masquerade(_))).unwrap();
    host.rules.remove(masq);
    let a = s.stop();
    host.drive(&mut s, a);
    assert_eq!(s.phase(), Phase::Stopped);
    assert_eq!(
        s.teardown_errors(),
        &[TeardownError { step: 2, error: CommandError::NonZeroExit(2) }][..]
    );
    assert!(host.rules.is_empty());
    assert_eq!(s.failure(), None);
}

#[test]
fn shutdown_during_start_stops_after_start_completes() {
    let mut host = FakeHost::new(Vec::new());
    let mut s = TunnelSession::new(Role::Server, sample()).unwrap();
    let a = s.start();
    assert_eq!(a, Action::AcquireDevice);
    assert_eq!(s.request_shutdown(), Action::Idle);
    host.drive(&mut s, a);
    assert_eq!(s.phase(), Phase::Stopped);
    assert_eq!(host.ran.len(), 8);
    assert!(host.rules.is_empty());
    assert_eq!(s.ledger().len(), 5);
}

#[test]
fn stop_before_start_acquires_nothing() {
    let mut s = TunnelSession::new(Role::Client, sample()).unwrap();
    assert_eq!(s.stop(), Action::Idle);
    assert_eq!(s.phase(), Phase::Stopped);
    assert_eq!(s.start(), Action::Idle);
    assert_eq!(s.phase(), Phase::Stopped);
}

#[test]
fn unexpected_event_changes_nothing() {
    let mut s = TunnelSession::new(Role::Client, sample()).unwrap();
    let a = s.start();
    assert_eq!(a, Action::AcquireDevice);
    assert_eq!(s.handle(Event::CommandSucceeded), Action::Idle);
    assert_eq!(s.start(), Action::Idle);
    assert_eq!(s.phase(), Phase::Starting);
    assert!(!s.device_held());
    assert_eq!(s.role(), Role::Client);
    assert_eq!(s.config(), sample());
    assert_eq!(s.steps().len(), 8);
}

#[test]
fn stop_while_stopping_returns_no_second_action() {
    let mut host = FakeHost::new(Vec::new());
    let mut s = TunnelSession::new(Role::Server, sample()).unwrap();
    let a = s.start();
    host.drive(&mut s, a);
    let first = s.stop();
    assert!(matches!(first, Action::Run(Command::Remove(_))));
    assert_eq!(s.stop(), Action::Idle);
    assert_eq!(s.request_shutdown(), Action::Idle);
    assert_eq!(s.phase(), Phase::Stopping);
    host.drive(&mut s, first);
    assert_eq!(s.phase(), Phase::Stopped);
    assert!(host.rules.is_empty());
    assert_eq!(host.ran.len(), 5 + 3);
    assert!(s.teardown_errors().is_empty());
}
