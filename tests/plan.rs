use tunnel_setup::{argv, gateway_span, run_mode, spell, RunMode, Token, Word};
use tunnel_setup::{
    cleanup_when_sig_exit, ifconfig, ipv4, plan, setup_route_table, Cidr, Command, ConfigError, NetworkConfig,
    Role, Rule, Scope, Stage,
};

fn cidr(a: u8, b: u8, c: u8, d: u8, prefix: u8) -> Cidr {
    Cidr::new(ipv4(a, b, c, d), prefix).unwrap()
}

fn sample() -> NetworkConfig {
    NetworkConfig::new(
        cidr(10, 8, 0, 2, 16),
        cidr(10, 8, 0, 1, 16),
        cidr(10, 8, 0, 0, 16),
        Some(ipv4(203, 0, 113, 5)),
    )
}

fn stages(steps: &[tunnel_setup::ConfigStep]) -> Vec<Stage> {
    let mut out: Vec<Stage> = Vec::new();
    for st in steps {
        if out.last() != Some(&st.stage) {
            out.push(st.stage);
        }
    }
    out
}

#[test]
fn ipv4_value_of_dotted_address() {
    assert_eq!(ipv4(10, 8, 0, 2), 0x0A08_0002);
    assert_eq!(ipv4(255, 255, 255, 255), u32::MAX);
    assert_eq!(ipv4(128, 0, 0, 0), 0x8000_0000);
}

#[test]
fn cidr_prefix_bounds_and_membership() {
    assert!(Cidr::new(0, 33).is_none());
    assert!(Cidr::new(0, 32).is_some());
    let net = cidr(10, 8, 0, 0, 16);
    assert!(net.contains(ipv4(10, 8, 255, 7)));
    assert!(!net.contains(ipv4(10, 9, 0, 1)));
    assert!(cidr(0, 0, 0, 0, 0).contains(ipv4(1, 2, 3, 4)));
    assert!(cidr(1, 2, 3, 4, 32).contains(ipv4(1, 2, 3, 4)));
    assert!(!cidr(1, 2, 3, 4, 32).contains(ipv4(1, 2, 3, 5)));
}

#[test]
fn validation_errors() {
    let good = sample();
    assert_eq!(good.validate(Role::Client), Ok(()));
    assert_eq!(good.validate(Role::Server), Ok(()));
    assert_eq!(good.with_mtu(0).validate(Role::Client), Err(ConfigError::ZeroMtu));
    let mut bad = good;
    bad.tunnel_subnet.prefix = 40;
    assert_eq!(bad.validate(Role::Server), Err(ConfigError::InvalidPrefix));
    let mut bad = good;
    bad.client_address = cidr(10, 9, 0, 2, 16);
    assert_eq!(bad.validate(Role::Client), Err(ConfigError::ClientOutsideSubnet));
    let mut bad = good;
    bad.server_address = cidr(192, 168, 0, 1, 16);
    assert_eq!(bad.validate(Role::Server), Err(ConfigError::ServerOutsideSubnet));
    let mut bad = good;
    bad.server_address = bad.client_address;
    assert_eq!(bad.validate(Role::Server), Err(ConfigError::SameAddress));
    let mut no_host = good;
    no_host.server_host = None;
    assert_eq!(no_host.validate(Role::Client), Err(ConfigError::MissingServerHost));
    assert_eq!(no_host.validate(Role::Server), Ok(()));
}

#[test]
fn default_mtu_and_override() {
    assert_eq!(sample().mtu, 1500);
    assert_eq!(sample().with_mtu(1400).mtu, 1400);
}

#[test]
fn client_plan_has_six_stages_ending_in_split_routes() {
    let steps = plan(Role::Client, &sample());
    assert_eq!(
        stages(&steps),
        vec![Stage::Address, Stage::Forwarding, Stage::Nat, Stage::Filter, Stage::ServerRoute, Stage::SplitRoute]
    );
    assert_eq!(steps.len(), 8);
    assert_eq!(
        steps[0].apply,
        Command::AssignAddress { address: cidr(10, 8, 0, 2, 16), mtu: 1500 }
    );
    assert_eq!(steps[0].undo, None);
    assert_eq!(steps[1].apply, Command::EnableForwarding);
    assert_eq!(steps[1].undo, None);
    assert_eq!(steps[5].apply, Command::Insert(Rule::HostRoute(ipv4(203, 0, 113, 5))));
    assert_eq!(steps[6].apply, Command::Insert(Rule::DeviceRoute(cidr(0, 0, 0, 0, 1))));
    assert_eq!(steps[7].apply, Command::Insert(Rule::DeviceRoute(cidr(128, 0, 0, 0, 1))));
    let undo = cleanup_when_sig_exit(&steps);
    assert_eq!(
        undo,
        vec![
            Command::Remove(Rule::DeviceRoute(cidr(128, 0, 0, 0, 1))),
            Command::Remove(Rule::DeviceRoute(cidr(0, 0, 0, 0, 1))),
            Command::Remove(Rule::HostRoute(ipv4(203, 0, 113, 5))),
            Command::Remove(Rule::ForwardAccept(Scope::Device)),
            Command::Remove(Rule::ForwardEstablished(Scope::Device)),
            Command::Remove(Rule::Masquerade(Scope::Device)),
        ]
    );
}

#[test]
fn server_plan_has_four_stages_and_no_routes() {
    let cfg = sample();
    let steps = plan(Role::Server, &cfg);
    assert_eq!(stages(&steps), vec![Stage::Address, Stage::Forwarding, Stage::Nat, Stage::Filter]);
    assert_eq!(steps.len(), 5);
    assert_eq!(steps[0].apply, Command::AssignAddress { address: cidr(10, 8, 0, 1, 16), mtu: 1500 });
    let subnet = Scope::Subnet(cfg.tunnel_subnet);
    assert_eq!(steps[2].apply, Command::Insert(Rule::Masquerade(subnet)));
    assert_eq!(steps[3].apply, Command::Insert(Rule::ForwardEstablished(subnet)));
    assert_eq!(steps[4].apply, Command::Insert(Rule::ForwardAccept(subnet)));
    for st in &steps {
        assert!(!matches!(st.apply, Command::Insert(Rule::HostRoute(_)) | Command::Insert(Rule::DeviceRoute(_))));
    }
}

#[test]
fn plan_is_address_step_then_route_table_steps() {
    for role in [Role::Client, Role::Server] {
        let cfg = sample();
        let steps = plan(role, &cfg);
        assert_eq!(steps[0], ifconfig(role, &cfg));
        assert_eq!(&steps[1..], &setup_route_table(role, &cfg)[..]);
        for st in &steps[1..] {
            assert!(!matches!(st.apply, Command::AssignAddress { .. }));
        }
    }
}

#[test]
fn undo_order_is_reverse_of_apply_order() {
    let steps = plan(Role::Client, &sample());
    let undo = cleanup_when_sig_exit(&steps);
    let inserted: Vec<Command> = steps
        .iter()
        .filter_map(|st| match st.apply {
            Command::Insert(r) => Some(Command::Remove(r)),
            _ => None,
        })
        .rev()
        .collect();
    assert_eq!(undo, inserted);
    assert!(cleanup_when_sig_exit(&Vec::new()).is_empty());
    assert!(cleanup_when_sig_exit(&steps[..2].to_vec()).is_empty());
}

#[test]
fn argument_vectors_of_commands() {
    let cfg = sample();
    let steps = plan(Role::Client, &cfg);
    assert_eq!(
        argv(steps[0].apply),
        vec![
            Token::Word(Word::Ifconfig),
            Token::Device,
            Token::Block(cidr(10, 8, 0, 2, 16)),
            Token::Word(Word::Mtu),
            Token::Number(1500),
            Token::Word(Word::Up),
        ]
    );
    assert_eq!(
        argv(steps[4].apply),
        vec![
            Token::Word(Word::Iptables),
            Token::Word(Word::InsertAt),
            Token::Word(Word::Forward),
            Token::Word(Word::First),
            Token::Word(Word::OutIface),
            Token::Device,
            Token::Word(Word::Jump),
            Token::Word(Word::Accept),
        ]
    );
    assert_eq!(
        argv(steps[5].undo.unwrap()),
        vec![
            Token::Word(Word::Ip),
            Token::Word(Word::Route),
            Token::Word(Word::Del),
            Token::Addr(ipv4(203, 0, 113, 5)),
            Token::Word(Word::Via),
            Token::DefaultGateway,
        ]
    );
    let server = plan(Role::Server, &cfg);
    let n = cfg.tunnel_subnet;
    assert_eq!(
        argv(server[2].apply),
        vec![
            Token::Word(Word::Iptables),
            Token::Word(Word::Table),
            Token::Word(Word::Nat),
            Token::Word(Word::Append),
            Token::Word(Word::Postrouting),
            Token::Word(Word::Source),
            Token::Block(n),
            Token::Word(Word::Not),
            Token::Word(Word::Dest),
            Token::Block(n),
            Token::Word(Word::Match),
            Token::Word(Word::Comment),
            Token::Word(Word::CommentFlag),
            Token::Word(Word::Tag),
            Token::Word(Word::Jump),
            Token::Word(Word::Masquerade),
        ]
    );
    let added = argv(server[2].apply);
    let deleted = argv(server[2].undo.unwrap());
    assert_eq!(deleted[3], Token::Word(Word::Delete));
    assert_eq!(&added[..3], &deleted[..3]);
    assert_eq!(&added[4..], &deleted[4..]);
    assert_eq!(
        argv(server[3].undo.unwrap()),
        vec![
            Token::Word(Word::Iptables),
            Token::Word(Word::Delete),
            Token::Word(Word::Forward),
            Token::Word(Word::Source),
            Token::Block(n),
            Token::Word(Word::Match),
            Token::Word(Word::State),
            Token::Word(Word::StateFlag),
            Token::Word(Word::RelatedEstablished),
            Token::Word(Word::Jump),
            Token::Word(Word::Accept),
        ]
    );
    assert_eq!(
        argv(Command::EnableForwarding),
        vec![Token::Word(Word::Sysctl), Token::Word(Word::Write), Token::Word(Word::IpForwardOn)]
    );
}

fn spelled(c: Command) -> Vec<&'static str> {
    argv(c)
        .into_iter()
        .map(|t| match t {
            Token::Word(x) => spell(x),
            Token::Block(_) => "<block>",
            Token::Device => "<dev>",
            _ => "<value>",
        })
        .collect()
}

#[test]
fn server_nat_rule_spelled_with_comment_tag() {
    let server = plan(Role::Server, &sample());
    assert_eq!(
        spelled(server[2].apply).join(" "),
        "iptables -t nat -A POSTROUTING -s <block> ! -d <block> -m comment --comment vpndemo -j MASQUERADE"
    );
    assert_eq!(
        spelled(server[2].undo.unwrap()).join(" "),
        "iptables -t nat -D POSTROUTING -s <block> ! -d <block> -m comment --comment vpndemo -j MASQUERADE"
    );
    assert_eq!(
        spelled(server[3].apply).join(" "),
        "iptables -A FORWARD -s <block> -m state --state RELATED,ESTABLISHED -j ACCEPT"
    );
    assert_eq!(spelled(server[4].apply).join(" "), "iptables -A FORWARD -d <block> -j ACCEPT");
    assert_eq!(spelled(server[1].apply).join(" "), "sysctl -w net.ipv4.ip_forward=1");
    let client = plan(Role::Client, &sample());
    assert_eq!(spelled(client[2].apply).join(" "), "iptables -t nat -A POSTROUTING -o <dev> -j MASQUERADE");
    assert_eq!(spelled(client[7].apply).join(" "), "ip route add <block> dev <dev>");
}

#[test]
fn only_forwarding_is_fire_and_forget() {
    assert_eq!(run_mode(Command::EnableForwarding), RunMode::FireAndForget);
    for st in plan(Role::Client, &sample()).iter().skip(2) {
        assert_eq!(run_mode(st.apply), RunMode::Blocking);
        assert_eq!(run_mode(st.undo.unwrap()), RunMode::Blocking);
    }
    assert_eq!(run_mode(plan(Role::Server, &sample())[0].apply), RunMode::Blocking);
}

#[test]
fn gateway_is_word_after_last_via() {
    let out = b"default via 192.168.1.1 dev eth0 proto dhcp metric 100\n";
    assert_eq!(gateway_span(out), Some((12, 23)));
    assert_eq!(&out[12..23], b"192.168.1.1");
    let two = b"default via 10.0.0.1 dev a\ndefault via  10.0.0.2\n";
    let (a, b) = gateway_span(two).unwrap();
    assert_eq!(&two[a..b], b"10.0.0.2");
    assert_eq!(gateway_span(b"default dev tun0 scope link\n"), None);
    assert_eq!(gateway_span(b"default via   \n"), None);
    assert_eq!(gateway_span(b"viaduct 1.2.3.4"), None);
    assert_eq!(gateway_span(b""), None);
}
