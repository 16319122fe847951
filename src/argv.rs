use vstd::prelude::*;
use crate::cidr::Cidr;
use crate::steps::{Command, Rule, Scope};

verus! {

/// A fixed word of a network command line.
#[derive(Clone, Copy, Debug, PartialEq, Eq, Structural)]
pub enum Word {
    /// `ifconfig`
    Ifconfig,
    /// `mtu`
    Mtu,
    /// `up`
    Up,
    /// `sysctl`
    Sysctl,
    /// `-w`
    Write,
    /// `net.ipv4.ip_forward=1`
    IpForwardOn,
    /// `iptables`
    Iptables,
    /// `-t`
    Table,
    /// `nat`
    Nat,
    /// `-A`
    Append,
    /// `-I`
    InsertAt,
    /// `-D`
    Delete,
    /// `POSTROUTING`
    Postrouting,
    /// `FORWARD`
    Forward,
    /// `1`
    First,
    /// `-i`
    InIface,
    /// `-o`
    OutIface,
    /// `-s`
    Source,
    /// `-d`
    Dest,
    /// `!`
    Not,
    /// `-m`
    Match,
    /// `state`
    State,
    /// `--state`
    StateFlag,
    /// `RELATED,ESTABLISHED`
    RelatedEstablished,
    /// `comment`
    Comment,
    /// `--comment`
    CommentFlag,
    /// `vpndemo`, the tag on this tunnel's subnet NAT rule
    Tag,
    /// `-j`
    Jump,
    /// `MASQUERADE`
    Masquerade,
    /// `ACCEPT`
    Accept,
    /// `ip`
    Ip,
    /// `route`
    Route,
    /// `add`
    Add,
    /// `del`
    Del,
    /// `via`
    Via,
    /// `dev`
    Dev,
}

/// One argument of a command line: a fixed word or a value filled in when it runs.
#[derive(Clone, Copy, Debug, PartialEq, Eq, Structural)]
pub enum Token {
    Word(Word),
    /// The tunnel device's name.
    Device,
    /// A block in `a.b.c.d/p` form.
    Block(Cidr),
    /// An address in `a.b.c.d` form.
    Addr(u32),
    /// A decimal number.
    Number(u32),
    /// The host's current default gateway.
    DefaultGateway,
}

/// How `x` is written on a command line.
pub open spec fn word_text(x: Word) -> Seq<char> {
    match x {
        Word::Ifconfig => "ifconfig"@,
        Word::Mtu => "mtu"@,
        Word::Up => "up"@,
        Word::Sysctl => "sysctl"@,
        Word::Write => "-w"@,
        Word::IpForwardOn => "net.ipv4.ip_forward=1"@,
        Word::Iptables => "iptables"@,
        Word::Table => "-t"@,
        Word::Nat => "nat"@,
        Word::Append => "-A"@,
        Word::InsertAt => "-I"@,
        Word::Delete => "-D"@,
        Word::Postrouting => "POSTROUTING"@,
        Word::Forward => "FORWARD"@,
        Word::First => "1"@,
        Word::InIface => "-i"@,
        Word::OutIface => "-o"@,
        Word::Source => "-s"@,
        Word::Dest => "-d"@,
        Word::Not => "!"@,
        Word::Match => "-m"@,
        Word::State => "state"@,
        Word::StateFlag => "--state"@,
        Word::RelatedEstablished => "RELATED,ESTABLISHED"@,
        Word::Comment => "comment"@,
        Word::CommentFlag => "--comment"@,
        Word::Tag => "vpndemo"@,
        Word::Jump => "-j"@,
        Word::Masquerade => "MASQUERADE"@,
        Word::Accept => "ACCEPT"@,
        Word::Ip => "ip"@,
        Word::Route => "route"@,
        Word::Add => "add"@,
        Word::Del => "del"@,
        Word::Via => "via"@,
        Word::Dev => "dev"@,
    }
}

/// How `x` is written on a command line.
pub fn spell(x: Word) -> (r: &'static str)
    ensures
        r@ == word_text(x),
{
    match x {
        Word::Ifconfig => "ifconfig",
        Word::Mtu => "mtu",
        Word::Up => "up",
        Word::Sysctl => "sysctl",
        Word::Write => "-w",
        Word::IpForwardOn => "net.ipv4.ip_forward=1",
        Word::Iptables => "iptables",
        Word::Table => "-t",
        Word::Nat => "nat",
        Word::Append => "-A",
        Word::InsertAt => "-I",
        Word::Delete => "-D",
        Word::Postrouting => "POSTROUTING",
        Word::Forward => "FORWARD",
        Word::First => "1",
        Word::InIface => "-i",
        Word::OutIface => "-o",
        Word::Source => "-s",
        Word::Dest => "-d",
        Word::Not => "!",
        Word::Match => "-m",
        Word::State => "state",
        Word::StateFlag => "--state",
        Word::RelatedEstablished => "RELATED,ESTABLISHED",
        Word::Comment => "comment",
        Word::CommentFlag => "--comment",
        Word::Tag => "vpndemo",
        Word::Jump => "-j",
        Word::Masquerade => "MASQUERADE",
        Word::Accept => "ACCEPT",
        Word::Ip => "ip",
        Word::Route => "route",
        Word::Add => "add",
        Word::Del => "del",
        Word::Via => "via",
        Word::Dev => "dev",
    }
}

pub open spec fn w(x: Word) -> Token {
    Token::Word(x)
}

/// The arguments that select the traffic of a NAT rule; the subnet rule carries a
/// comment tag, in the delete form too, so that deleting matches what was added.
pub open spec fn nat_match(s: Scope) -> Seq<Token> {
    match s {
        Scope::Device => seq![w(Word::OutIface), Token::Device],
        Scope::Subnet(n) => seq![
            w(Word::Source),
            Token::Block(n),
            w(Word::Not),
            w(Word::Dest),
            Token::Block(n),
            w(Word::Match),
            w(Word::Comment),
            w(Word::CommentFlag),
            w(Word::Tag),
        ],
    }
}

/// The chain operation of a FORWARD rule: device rules go first in the chain,
/// subnet rules at its end.
pub open spec fn forward_op(s: Scope, add: bool) -> Seq<Token> {
    if !add {
        seq![w(Word::Delete), w(Word::Forward)]
    } else {
        match s {
            Scope::Device => seq![w(Word::InsertAt), w(Word::Forward), w(Word::First)],
            Scope::Subnet(_) => seq![w(Word::Append), w(Word::Forward)],
        }
    }
}

/// The arguments that add (or, with `add` false, delete) `r`, command name first.
pub open spec fn rule_argv(r: Rule, add: bool) -> Seq<Token> {
    match r {
        Rule::Masquerade(s) => seq![
            w(Word::Iptables),
            w(Word::Table),
            w(Word::Nat),
            w(if add { Word::Append } else { Word::Delete }),
            w(Word::Postrouting),
        ] + nat_match(s) + seq![w(Word::Jump), w(Word::Masquerade)],
        Rule::ForwardEstablished(s) => seq![w(Word::Iptables)] + forward_op(s, add) + (match s {
            Scope::Device => seq![w(Word::InIface), Token::Device],
            Scope::Subnet(n) => seq![w(Word::Source), Token::Block(n)],
        }) + seq![
            w(Word::Match),
            w(Word::State),
            w(Word::StateFlag),
            w(Word::RelatedEstablished),
            w(Word::Jump),
            w(Word::Accept),
        ],
        Rule::ForwardAccept(s) => seq![w(Word::Iptables)] + forward_op(s, add) + (match s {
            Scope::Device => seq![w(Word::OutIface), Token::Device],
            Scope::Subnet(n) => seq![w(Word::Dest), Token::Block(n)],
        }) + seq![w(Word::Jump), w(Word::Accept)],
        Rule::HostRoute(h) => seq![
            w(Word::Ip),
            w(Word::Route),
            w(if add { Word::Add } else { Word::Del }),
            Token::Addr(h),
            w(Word::Via),
            Token::DefaultGateway,
        ],
        Rule::DeviceRoute(c) => seq![
            w(Word::Ip),
            w(Word::Route),
            w(if add { Word::Add } else { Word::Del }),
            Token::Block(c),
            w(Word::Dev),
            Token::Device,
        ],
    }
}

/// The command line of `c`, command name first.
pub open spec fn argv_of(c: Command) -> Seq<Token> {
    match c {
        Command::AssignAddress { address, mtu } => seq![
            w(Word::Ifconfig),
            Token::Device,
            Token::Block(address),
            w(Word::Mtu),
            Token::Number(mtu),
            w(Word::Up),
        ],
        Command::EnableForwarding => seq![w(Word::Sysctl), w(Word::Write), w(Word::IpForwardOn)],
        Command::Insert(r) => rule_argv(r, true),
        Command::Remove(r) => rule_argv(r, false),
    }
}

fn push_words(v: &mut Vec<Token>, words: &[Word])
    ensures
        final(v)@ == old(v)@ + words@.map_values(|x: Word| w(x)),
{
    let ghost start = v@;
    let mut i: usize = 0;
    while i < words.len()
        invariant
            i <= words@.len(),
            v@ == start + words@.take(i as int).map_values(|x: Word| w(x)),
        decreases words.len() - i,
    {
        v.push(Token::Word(words[i]));
        i = i + 1;
        assert(words@.take(i as int) =~= words@.take(i - 1).push(words@[i - 1]));
        assert(v@ =~= start + words@.take(i as int).map_values(|x: Word| w(x)));
    }
    assert(words@.take(i as int) =~= words@);
}

fn rule_tokens(r: Rule, add: bool) -> (out: Vec<Token>)
    ensures
        out@ == rule_argv(r, add),
{
    let mut v: Vec<Token> = Vec::new();
    match r {
        Rule::Masquerade(s) => {
            let op = if add { Word::Append } else { Word::Delete };
            push_words(&mut v, &[Word::Iptables, Word::Table, Word::Nat, op, Word::Postrouting]);
            match s {
                Scope::Device => {
                    v.push(Token::Word(Word::OutIface));
                    v.push(Token::Device);
                },
                Scope::Subnet(n) => {
                    v.push(Token::Word(Word::Source));
                    v.push(Token::Block(n));
                    push_words(&mut v, &[Word::Not, Word::Dest]);
                    v.push(Token::Block(n));
                    push_words(&mut v, &[Word::Match, Word::Comment, Word::CommentFlag, Word::Tag]);
                },
            }
            push_words(&mut v, &[Word::Jump, Word::Masquerade]);
        },
        Rule::ForwardEstablished(s) | Rule::ForwardAccept(s) => {
            v.push(Token::Word(Word::Iptables));
            if !add {
                push_words(&mut v, &[Word::Delete, Word::Forward]);
            } else {
                match s {
                    Scope::Device => push_words(&mut v, &[Word::InsertAt, Word::Forward, Word::First]),
                    Scope::Subnet(_) => push_words(&mut v, &[Word::Append, Word::Forward]),
                }
            }
            let established = match r {
                Rule::ForwardEstablished(_) => true,
                _ => false,
            };
            match s {
                Scope::Device => {
                    v.push(Token::Word(if established { Word::InIface } else { Word::OutIface }));
                    v.push(Token::Device);
                },
                Scope::Subnet(n) => {
                    v.push(Token::Word(if established { Word::Source } else { Word::Dest }));
                    v.push(Token::Block(n));
                },
            }
            if established {
                push_words(&mut v, &[Word::Match, Word::State, Word::StateFlag, Word::RelatedEstablished]);
            }
            push_words(&mut v, &[Word::Jump, Word::Accept]);
        },
        Rule::HostRoute(h) => {
            push_words(&mut v, &[Word::Ip, Word::Route, if add { Word::Add } else { Word::Del }]);
            v.push(Token::Addr(h));
            v.push(Token::Word(Word::Via));
            v.push(Token::DefaultGateway);
        },
        Rule::DeviceRoute(c) => {
            push_words(&mut v, &[Word::Ip, Word::Route, if add { Word::Add } else { Word::Del }]);
            v.push(Token::Block(c));
            v.push(Token::Word(Word::Dev));
            v.push(Token::Device);
        },
    }
    assert(v@ =~= rule_argv(r, add));
    v
}

/// The command line that carries out `c`, as arguments never joined into a shell string.
pub fn argv(c: Command) -> (r: Vec<Token>)
    ensures
        r@ == argv_of(c),
{
    match c {
        Command::AssignAddress { address, mtu } => {
            let mut v: Vec<Token> = Vec::new();
            v.push(Token::Word(Word::Ifconfig));
            v.push(Token::Device);
            v.push(Token::Block(address));
            v.push(Token::Word(Word::Mtu));
            v.push(Token::Number(mtu));
            v.push(Token::Word(Word::Up));
            assert(v@ =~= argv_of(c));
            v
        },
        Command::EnableForwarding => {
            let mut v: Vec<Token> = Vec::new();
            push_words(&mut v, &[Word::Sysctl, Word::Write, Word::IpForwardOn]);
            assert(v@ =~= argv_of(c));
            v
        },
        Command::Insert(r) => rule_tokens(r, true),
        Command::Remove(r) => rule_tokens(r, false),
    }
}

} // verus!
