use vstd::prelude::*;
use crate::config::{ConfigError, NetworkConfig, Role};
use crate::steps::{plan, plan_of, undo_cmds, Command, ConfigStep};

verus! {

/// Where a session is in its life.
#[derive(Clone, Copy, Debug, PartialEq, Eq, Structural)]
pub enum Phase {
    Created,
    Starting,
    Active,
    Stopping,
    Stopped,
}

/// How one external command failed.
#[derive(Clone, Copy, Debug, PartialEq, Eq, Structural)]
pub enum CommandError {
    SpawnFailed,
    NonZeroExit(i32),
    Timeout,
    /// The host has no default route to send the server's traffic through.
    NoDefaultGateway,
}

/// Why `start` gave up.
#[derive(Clone, Copy, Debug, PartialEq, Eq, Structural)]
pub enum StartError {
    /// The tunnel device could not be acquired.
    DeviceUnavailable,
    /// The apply command of the step at this index failed.
    Command { step: usize, error: CommandError },
}

/// An undo command that failed during teardown; teardown went on after it.
#[derive(Clone, Copy, Debug, PartialEq, Eq, Structural)]
pub struct TeardownError {
    /// Index in the ledger of the step whose undo failed.
    pub step: usize,
    pub error: CommandError,
}

/// What the caller reports back after carrying out an action.
#[derive(Clone, Copy, Debug, PartialEq, Eq, Structural)]
pub enum Event {
    DeviceReady,
    DeviceUnavailable,
    CommandSucceeded,
    CommandFailed(CommandError),
    DeviceReleased,
}

/// What the caller must do next for the session.
#[derive(Clone, Copy, Debug, PartialEq, Eq, Structural)]
pub enum Action {
    /// Acquire the tunnel device, then report `DeviceReady` or `DeviceUnavailable`.
    AcquireDevice,
    /// Run the command, then report `CommandSucceeded` or `CommandFailed`.
    Run(Command),
    /// Release the tunnel device, then report `DeviceReleased`.
    ReleaseDevice,
    /// Nothing new to do: the session waits on no action, or on one that an
    /// earlier call already returned.
    Idle,
}

/// The abstract state of a session.
pub struct SessionState {
    pub role: Role,
    pub config: NetworkConfig,
    /// The plan for the role.
    pub steps: Seq<ConfigStep>,
    pub phase: Phase,
    pub device_held: bool,
    /// The steps whose apply command succeeded, in order.
    pub ledger: Seq<ConfigStep>,
    /// During teardown: ledger entries, from the front, not yet undone.
    pub remaining: nat,
    pub shutdown_requested: bool,
    pub failure: Option<StartError>,
    pub errors: Seq<TeardownError>,
    /// Every command the session has asked the caller to run, in order.
    pub trace: Seq<Command>,
}

/// A new session for `role`.
pub open spec fn created(role: Role, config: NetworkConfig) -> SessionState {
    SessionState {
        role,
        config,
        steps: plan_of(role, config),
        phase: Phase::Created,
        device_held: false,
        ledger: Seq::empty(),
        remaining: 0,
        shutdown_requested: false,
        failure: None,
        errors: Seq::empty(),
        trace: Seq::empty(),
    }
}

/// The action a session in state `s` waits on.
pub open spec fn pending(s: SessionState) -> Action {
    match s.phase {
        Phase::Starting => if !s.device_held {
            Action::AcquireDevice
        } else if s.ledger.len() < s.steps.len() {
            Action::Run(s.steps[s.ledger.len() as int].apply)
        } else {
            Action::Idle
        },
        Phase::Stopping => if s.remaining > 0 {
            match s.ledger[s.remaining - 1].undo {
                Some(c) => Action::Run(c),
                None => Action::Idle,
            }
        } else {
            Action::ReleaseDevice
        },
        _ => Action::Idle,
    }
}

/// Records the pending command, if any, as asked for.
pub open spec fn issue(s: SessionState) -> SessionState {
    match pending(s) {
        Action::Run(c) => SessionState { trace: s.trace.push(c), ..s },
        _ => s,
    }
}

/// The count of leading ledger entries left after passing over, from the back,
/// the entries without an undo command.
pub open spec fn skip_silent(ledger: Seq<ConfigStep>, r: nat) -> nat
    decreases r,
{
    if r > 0 && ledger[r - 1].undo is None {
        skip_silent(ledger, (r - 1) as nat)
    } else {
        r
    }
}

/// Teardown begins with the last ledger entry.
pub open spec fn begin_stop(s: SessionState) -> SessionState {
    issue(SessionState { phase: Phase::Stopping, remaining: skip_silent(s.ledger, s.ledger.len()), ..s })
}

/// After the device came up or a step was applied: apply the next step, or finish starting.
pub open spec fn after_progress(s: SessionState) -> SessionState {
    if s.ledger.len() < s.steps.len() {
        issue(s)
    } else if s.shutdown_requested {
        begin_stop(s)
    } else {
        SessionState { phase: Phase::Active, ..s }
    }
}

/// The state after `start`.
pub open spec fn on_start(s: SessionState) -> SessionState {
    if s.phase == Phase::Created {
        SessionState { phase: Phase::Starting, ..s }
    } else {
        s
    }
}

/// The state after `stop` or `request_shutdown`.
pub open spec fn on_shutdown(s: SessionState) -> SessionState {
    match s.phase {
        Phase::Created => SessionState { phase: Phase::Stopped, ..s },
        Phase::Starting => SessionState { shutdown_requested: true, ..s },
        Phase::Active => begin_stop(s),
        _ => s,
    }
}

/// The state after the caller reports `e`; an event that answers no pending action changes nothing.
pub open spec fn on_event(s: SessionState, e: Event) -> SessionState {
    let starting = s.phase == Phase::Starting && s.device_held && s.ledger.len() < s.steps.len();
    let undoing = s.phase == Phase::Stopping && s.remaining > 0;
    match e {
        Event::DeviceReady => if s.phase == Phase::Starting && !s.device_held {
            after_progress(SessionState { device_held: true, ..s })
        } else {
            s
        },
        Event::DeviceUnavailable => if s.phase == Phase::Starting && !s.device_held {
            SessionState { phase: Phase::Stopped, failure: Some(StartError::DeviceUnavailable), ..s }
        } else {
            s
        },
        Event::CommandSucceeded => if starting {
            after_progress(SessionState { ledger: s.ledger.push(s.steps[s.ledger.len() as int]), ..s })
        } else if undoing {
            issue(SessionState { remaining: skip_silent(s.ledger, (s.remaining - 1) as nat), ..s })
        } else {
            s
        },
        Event::CommandFailed(error) => if starting {
            begin_stop(
                SessionState {
                    failure: Some(StartError::Command { step: s.ledger.len() as usize, error }),
                    ..s
                },
            )
        } else if undoing {
            issue(
                SessionState {
                    errors: s.errors.push(TeardownError { step: (s.remaining - 1) as usize, error }),
                    remaining: skip_silent(s.ledger, (s.remaining - 1) as nat),
                    ..s
                },
            )
        } else {
            s
        },
        Event::DeviceReleased => if s.phase == Phase::Stopping && s.remaining == 0 {
            SessionState { phase: Phase::Stopped, device_held: false, ..s }
        } else {
            s
        },
    }
}

/// Whether `e` answers the action that a session in state `s` waits on.
pub open spec fn answers(s: SessionState, e: Event) -> bool {
    match e {
        Event::DeviceReady | Event::DeviceUnavailable => s.phase == Phase::Starting && !s.device_held,
        Event::CommandSucceeded | Event::CommandFailed(_) => (s.phase == Phase::Starting && s.device_held
            && s.ledger.len() < s.steps.len()) || (s.phase == Phase::Stopping && s.remaining > 0),
        Event::DeviceReleased => s.phase == Phase::Stopping && s.remaining == 0,
    }
}

/// What `start` returns: the first action of a created session, else nothing new.
pub open spec fn start_action(s: SessionState) -> Action {
    if s.phase == Phase::Created {
        pending(on_start(s))
    } else {
        Action::Idle
    }
}

/// What `stop` returns: the first teardown action of an active session, else
/// nothing new (a pending action stays with the call that returned it).
pub open spec fn shutdown_action(s: SessionState) -> Action {
    if s.phase == Phase::Active {
        pending(on_shutdown(s))
    } else {
        Action::Idle
    }
}

/// What `handle` returns: the next action when `e` answers the pending one, else nothing new.
pub open spec fn event_action(s: SessionState, e: Event) -> Action {
    if answers(s, e) {
        pending(on_event(s, e))
    } else {
        Action::Idle
    }
}

/// The invariant of every reachable state.
pub open spec fn wf_state(s: SessionState) -> bool {
    &&& s.config.valid_for(s.role)
    &&& s.steps == plan_of(s.role, s.config)
    &&& s.ledger.len() <= s.steps.len()
    &&& s.ledger == s.steps.take(s.ledger.len() as int)
    &&& s.remaining <= s.ledger.len()
    &&& s.phase == Phase::Created ==> s.ledger.len() == 0 && !s.device_held
    &&& s.phase == Phase::Starting && !s.device_held ==> s.ledger.len() == 0
    &&& s.phase == Phase::Active ==> s.ledger.len() == s.steps.len() && s.device_held
    &&& s.phase == Phase::Stopping ==> s.device_held
    &&& s.phase == Phase::Stopping && s.remaining > 0 ==> s.ledger[s.remaining - 1].undo is Some
}

/// Facts about passing over entries without an undo command.
pub proof fn lemma_skip_silent(ledger: Seq<ConfigStep>, r: nat)
    requires
        r <= ledger.len(),
    ensures
        skip_silent(ledger, r) <= r,
        skip_silent(ledger, r) > 0 ==> ledger[skip_silent(ledger, r) - 1].undo is Some,
        undo_cmds(ledger.take(skip_silent(ledger, r) as int)) == undo_cmds(ledger.take(r as int)),
    decreases r,
{
    if r > 0 && ledger[r - 1].undo is None {
        lemma_skip_silent(ledger, (r - 1) as nat);
        assert(ledger.take(r as int).drop_last() =~= ledger.take(r - 1));
        assert(ledger.take(r as int).last() == ledger[r - 1]);
    }
}

/// A tunnel session: the plan for its role, the ledger of applied steps, and
/// the lifecycle that drives the caller through acquiring the device, applying
/// the steps, and tearing them down.
pub struct TunnelSession {
    role: Role,
    config: NetworkConfig,
    steps: Vec<ConfigStep>,
    phase: Phase,
    device_held: bool,
    ledger: Vec<ConfigStep>,
    remaining: usize,
    shutdown_requested: bool,
    failure: Option<StartError>,
    errors: Vec<TeardownError>,
    trace: Ghost<Seq<Command>>,
}

impl View for TunnelSession {
    type V = SessionState;

    closed spec fn view(&self) -> SessionState {
        SessionState {
            role: self.role,
            config: self.config,
            steps: self.steps@,
            phase: self.phase,
            device_held: self.device_held,
            ledger: self.ledger@,
            remaining: self.remaining as nat,
            shutdown_requested: self.shutdown_requested,
            failure: self.failure,
            errors: self.errors@,
            trace: self.trace@,
        }
    }
}

fn skip_silent_exec(ledger: &Vec<ConfigStep>, r: usize) -> (out: usize)
    requires
        r <= ledger@.len(),
    ensures
        out as nat == skip_silent(ledger@, r as nat),
{
    let mut i: usize = r;
    while i > 0 && ledger[i - 1].undo.is_none()
        invariant
            i <= r <= ledger@.len(),
            skip_silent(ledger@, i as nat) == skip_silent(ledger@, r as nat),
        decreases i,
    {
        i = i - 1;
    }
    i
}

impl TunnelSession {
    pub open spec fn wf(&self) -> bool {
        wf_state(self@)
    }

    /// A session for `role`, or the first rule that `config` breaks for it.
    /// Nothing is acquired or run here.
    pub fn new(role: Role, config: NetworkConfig) -> (r: Result<TunnelSession, ConfigError>)
        ensures
            r is Ok <==> config.valid_for(role),
            r matches Ok(s) ==> s@ == created(role, config) && s.wf(),
            r matches Err(e) ==> config.error_for(role) == Some(e),
    {
        match config.validate(role) {
            Err(e) => Err(e),
            Ok(()) => {
                let steps = plan(role, &config);
                let s = TunnelSession {
                    role,
                    config,
                    steps,
                    phase: Phase::Created,
                    device_held: false,
                    ledger: Vec::new(),
                    remaining: 0,
                    shutdown_requested: false,
                    failure: None,
                    errors: Vec::new(),
                    trace: Ghost(Seq::empty()),
                };
                assert(s@.ledger =~= s@.steps.take(0));
                assert(s@ == created(role, config));
                Ok(s)
            },
        }
    }

    /// The action this session waits on.
    pub fn pending(&self) -> (a: Action)
        requires
            self.wf(),
        ensures
            a == pending(self@),
    {
        match self.phase {
            Phase::Starting => {
                if !self.device_held {
                    Action::AcquireDevice
                } else if self.ledger.len() < self.steps.len() {
                    Action::Run(self.steps[self.ledger.len()].apply)
                } else {
                    Action::Idle
                }
            },
            Phase::Stopping => {
                if self.remaining > 0 {
                    match self.ledger[self.remaining - 1].undo {
                        Some(c) => Action::Run(c),
                        None => Action::Idle,
                    }
                } else {
                    Action::ReleaseDevice
                }
            },
            _ => Action::Idle,
        }
    }

    fn issue_pending(&mut self) -> (a: Action)
        requires
            old(self).wf(),
        ensures
            final(self)@ == issue(old(self)@),
            a == pending(final(self)@),
            final(self).wf(),
    {
        let a = self.pending();
        match a {
            Action::Run(c) => {
                self.trace = Ghost(self.trace@.push(c));
            },
            _ => {},
        }
        a
    }

    fn begin_stop(&mut self) -> (a: Action)
        requires
            old(self).wf(),
            old(self)@.device_held,
        ensures
            final(self)@ == begin_stop(old(self)@),
            a == pending(final(self)@),
            final(self).wf(),
    {
        self.phase = Phase::Stopping;
        self.remaining = skip_silent_exec(&self.ledger, self.ledger.len());
        proof {
            lemma_skip_silent(self.ledger@, self.ledger@.len());
        }
        self.issue_pending()
    }

    fn after_progress(&mut self) -> (a: Action)
        requires
            old(self).wf(),
            old(self)@.phase == Phase::Starting,
            old(self)@.device_held,
        ensures
            final(self)@ == after_progress(old(self)@),
            a == pending(final(self)@),
            final(self).wf(),
    {
        if self.ledger.len() < self.steps.len() {
            self.issue_pending()
        } else if self.shutdown_requested {
            self.begin_stop()
        } else {
            self.phase = Phase::Active;
            Action::Idle
        }
    }

    /// Begins starting a created session; the first action acquires the device.
    /// On a session already started this changes nothing and returns `Idle`.
    pub fn start(&mut self) -> (a: Action)
        requires
            old(self).wf(),
        ensures
            final(self)@ == on_start(old(self)@),
            a == start_action(old(self)@),
            final(self).wf(),
    {
        if self.phase == Phase::Created {
            self.phase = Phase::Starting;
            self.pending()
        } else {
            Action::Idle
        }
    }

    /// Stops the session: an active one tears down its ledger in reverse order,
    /// one still starting does so once starting completes, a created one is
    /// stopped at once. On a stopping or stopped session this changes nothing.
    /// Only on an active session does it return an action; otherwise `Idle`, since
    /// any action still pending was returned by an earlier call.
    pub fn stop(&mut self) -> (a: Action)
        requires
            old(self).wf(),
        ensures
            final(self)@ == on_shutdown(old(self)@),
            a == shutdown_action(old(self)@),
            final(self).wf(),
    {
        match self.phase {
            Phase::Created => {
                self.phase = Phase::Stopped;
                Action::Idle
            },
            Phase::Starting => {
                self.shutdown_requested = true;
                Action::Idle
            },
            Phase::Active => self.begin_stop(),
            _ => Action::Idle,
        }
    }

    /// Asks the session to shut down, as on a termination signal; the same as `stop`.
    pub fn request_shutdown(&mut self) -> (a: Action)
        requires
            old(self).wf(),
        ensures
            final(self)@ == on_shutdown(old(self)@),
            a == shutdown_action(old(self)@),
            final(self).wf(),
    {
        self.stop()
    }

    /// Takes the outcome of the pending action and returns the next action. An
    /// event that answers no pending action changes nothing and returns `Idle`.
    pub fn handle(&mut self, e: Event) -> (a: Action)
        requires
            old(self).wf(),
        ensures
            final(self)@ == on_event(old(self)@, e),
            a == event_action(old(self)@, e),
            final(self).wf(),
    {
        let starting = self.phase == Phase::Starting && self.device_held && self.ledger.len() < self.steps.len();
        let undoing = self.phase == Phase::Stopping && self.remaining > 0;
        match e {
            Event::DeviceReady => {
                if self.phase == Phase::Starting && !self.device_held {
                    self.device_held = true;
                    self.after_progress()
                } else {
                    Action::Idle
                }
            },
            Event::DeviceUnavailable => {
                if self.phase == Phase::Starting && !self.device_held {
                    self.phase = Phase::Stopped;
                    self.failure = Some(StartError::DeviceUnavailable);
                }
                Action::Idle
            },
            Event::CommandSucceeded => {
                if starting {
                    let st = self.steps[self.ledger.len()];
                    self.ledger.push(st);
                    assert(self.ledger@ =~= self.steps@.take(self.ledger@.len() as int));
                    self.after_progress()
                } else if undoing {
                    self.remaining = skip_silent_exec(&self.ledger, self.remaining - 1);
                    proof {
                        lemma_skip_silent(self.ledger@, (old(self)@.remaining - 1) as nat);
                    }
                    self.issue_pending()
                } else {
                    Action::Idle
                }
            },
            Event::CommandFailed(error) => {
                if starting {
                    self.failure = Some(StartError::Command { step: self.ledger.len(), error });
                    self.begin_stop()
                } else if undoing {
                    self.errors.push(TeardownError { step: self.remaining - 1, error });
                    self.remaining = skip_silent_exec(&self.ledger, self.remaining - 1);
                    proof {
                        lemma_skip_silent(self.ledger@, (old(self)@.remaining - 1) as nat);
                    }
                    self.issue_pending()
                } else {
                    Action::Idle
                }
            },
            Event::DeviceReleased => {
                if self.phase == Phase::Stopping && self.remaining == 0 {
                    self.phase = Phase::Stopped;
                    self.device_held = false;
                }
                Action::Idle
            },
        }
    }

    pub fn phase(&self) -> (r: Phase)
        ensures
            r == self@.phase,
    {
        self.phase
    }

    pub fn role(&self) -> (r: Role)
        ensures
            r == self@.role,
    {
        self.role
    }

    pub fn config(&self) -> (r: NetworkConfig)
        ensures
            r == self@.config,
    {
        self.config
    }

    /// Whether the caller holds the tunnel device for this session.
    pub fn device_held(&self) -> (r: bool)
        ensures
            r == self@.device_held,
    {
        self.device_held
    }

    /// Why starting failed, if it did.
    pub fn failure(&self) -> (r: Option<StartError>)
        ensures
            r == self@.failure,
    {
        self.failure
    }

    /// The plan for the session's role.
    pub fn steps(&self) -> (r: &[ConfigStep])
        ensures
            r@ == self@.steps,
    {
        self.steps.as_slice()
    }

    /// The record of the steps whose apply command succeeded, in order; it is kept
    /// after teardown, when those steps are no longer in effect.
    pub fn ledger(&self) -> (r: &[ConfigStep])
        ensures
            r@ == self@.ledger,
    {
        self.ledger.as_slice()
    }

    /// The undo commands that failed during teardown, in the order they were tried.
    pub fn teardown_errors(&self) -> (r: &[TeardownError])
        ensures
            r@ == self@.errors,
    {
        self.errors.as_slice()
    }
}

} // verus!
