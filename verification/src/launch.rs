//! The order in which the listeners come up: what one runtime instance does
//! while it starts, how it reacts to what happens, and which settings each of
//! the two instances starts on.

use crate::settings::HostPort;
use crate::settings::Settings;
use vstd::prelude::*;

verus! {

/// How a runtime instance schedules its work.
#[derive(Clone, Copy, Debug, PartialEq, Eq)]
pub enum RuntimeKind {
    /// One event loop on one worker thread of its own.
    SingleThreaded,
    /// A pool of worker threads, driven from the calling thread.
    MultiThreaded,
}

/// One thing a runtime instance does while it starts. Each can fail, and a
/// failure is fatal.
#[derive(Debug, PartialEq, Eq)]
pub enum Step {
    /// Build the TLS context from the two PEM files.
    LoadTls { cert_pem: String, key_rsa_pem: String },
    /// Bind the TLS listener and serve what completes the handshake. With
    /// `nodelay`, Nagle's algorithm is switched off on each accepted socket.
    BindTls { host_port: HostPort, nodelay: bool },
    /// Bind the plaintext listener and serve it.
    BindPlain { host_port: HostPort },
}

impl Clone for Step {
    fn clone(&self) -> (copy: Self)
        ensures
            copy == *self,
    {
        match self {
            Step::LoadTls { cert_pem, key_rsa_pem } => Step::LoadTls {
                cert_pem: cert_pem.clone(),
                key_rsa_pem: key_rsa_pem.clone(),
            },
            Step::BindTls { host_port, nodelay } => Step::BindTls {
                host_port: *host_port,
                nodelay: *nodelay,
            },
            Step::BindPlain { host_port } => Step::BindPlain { host_port: *host_port },
        }
    }
}

impl Step {
    /// The address that the step binds, if it binds one.
    pub open spec fn binds(self) -> Option<HostPort> {
        match self {
            Step::LoadTls { .. } => None,
            Step::BindTls { host_port, .. } => Some(host_port),
            Step::BindPlain { host_port } => Some(host_port),
        }
    }
}

/// The steps of a runtime instance on the given settings: for the TLS
/// listener, if there is one, the TLS context and then the listener; after
/// that the plaintext listener, if there is one.
pub open spec fn startup_sequence(settings: Settings) -> Seq<Step> {
    let tls = match settings.https {
        Some(https) => seq![
            Step::LoadTls { cert_pem: https.cert_pem, key_rsa_pem: https.key_rsa_pem },
            Step::BindTls { host_port: https.host_port, nodelay: true },
        ],
        None => Seq::empty(),
    };
    let plain = match settings.http {
        Some(http) => seq![Step::BindPlain { host_port: http.host_port }],
        None => Seq::empty(),
    };
    tls + plain
}

/// The addresses that a run of steps binds, in order.
pub open spec fn bound_addresses(steps: Seq<Step>) -> Seq<HostPort>
    decreases steps.len(),
{
    if steps.len() == 0 {
        Seq::empty()
    } else {
        let before = bound_addresses(steps.drop_last());
        match steps.last().binds() {
            Some(host_port) => before.push(host_port),
            None => before,
        }
    }
}

/// Lists the steps of a runtime instance on the given settings.
pub fn startup_steps(settings: &Settings) -> (steps: Vec<Step>)
    ensures
        steps@ == startup_sequence(*settings),
{
    let mut steps: Vec<Step> = Vec::new();
    if let Some(https) = &settings.https {
        steps.push(
            Step::LoadTls {
                cert_pem: https.cert_pem.clone(),
                key_rsa_pem: https.key_rsa_pem.clone(),
            },
        );
        steps.push(Step::BindTls { host_port: https.host_port, nodelay: true });
    }
    if let Some(http) = &settings.http {
        steps.push(Step::BindPlain { host_port: http.host_port });
    }
    assert(steps@ =~= startup_sequence(*settings));
    steps
}

/// Where a runtime instance stands.
#[derive(Clone, Copy, Debug, PartialEq, Eq)]
pub enum Phase {
    /// Some step is still to be done.
    Starting,
    /// Every step is done and the listeners are served.
    Running,
    /// Nothing more will happen.
    Stopped,
}

/// What the outside reports to a runtime instance.
#[derive(Clone, Copy, Debug, PartialEq, Eq)]
pub enum Event {
    /// The step that was asked for is done.
    StepSucceeded,
    /// The step that was asked for has failed.
    StepFailed,
    /// No work is left to wait for.
    Idle,
}

/// What a runtime instance asks the outside to do.
#[derive(Debug, PartialEq, Eq)]
pub enum Action {
    /// Do this step and report how it went.
    Perform(Step),
    /// Serve the listeners until no work is left.
    Serve,
    /// Give up: a step has failed and there is no way on.
    Abort,
    /// Leave: the instance has stopped.
    Exit,
}

/// The state of a runtime instance.
pub struct InstanceState {
    pub kind: RuntimeKind,
    /// All steps of the instance, in order.
    pub steps: Seq<Step>,
    /// How many of them are done.
    pub done: nat,
    pub phase: Phase,
}

impl InstanceState {
    /// A starting instance has a step left; a running one has none.
    pub open spec fn wf(self) -> bool {
        &&& self.done <= self.steps.len()
        &&& self.phase is Starting ==> self.done < self.steps.len()
        &&& self.phase is Running ==> self.done == self.steps.len()
    }

    /// The state in which an instance begins. Without any listener it is
    /// running at once, with nothing to serve.
    pub open spec fn initial(kind: RuntimeKind, settings: Settings) -> InstanceState {
        let steps = startup_sequence(settings);
        InstanceState {
            kind,
            steps,
            done: 0,
            phase: if steps.len() > 0 {
                Phase::Starting
            } else {
                Phase::Running
            },
        }
    }

    /// What the state calls for.
    pub open spec fn pending(self) -> Action {
        match self.phase {
            Phase::Starting => Action::Perform(self.steps[self.done as int]),
            Phase::Running => Action::Serve,
            Phase::Stopped => Action::Exit,
        }
    }

    /// The state after an event. An event that the phase does not wait for
    /// changes nothing.
    pub open spec fn after(self, event: Event) -> InstanceState {
        match (self.phase, event) {
            (Phase::Starting, Event::StepSucceeded) => InstanceState {
                done: self.done + 1,
                phase: if self.done + 1 < self.steps.len() {
                    Phase::Starting
                } else {
                    Phase::Running
                },
                ..self
            },
            (Phase::Starting, Event::StepFailed) => InstanceState { phase: Phase::Stopped, ..self },
            (Phase::Running, Event::Idle) => InstanceState { phase: Phase::Stopped, ..self },
            _ => self,
        }
    }

    /// What the instance asks for when the event comes in.
    pub open spec fn reaction(self, event: Event) -> Action {
        if self.phase is Starting && event is StepFailed {
            Action::Abort
        } else {
            self.after(event).pending()
        }
    }

    /// The addresses bound so far.
    pub open spec fn bound(self) -> Seq<HostPort> {
        bound_addresses(self.steps.take(self.done as int))
    }
}

/// One runtime instance on its way from starting to stopped.
pub struct Instance {
    kind: RuntimeKind,
    steps: Vec<Step>,
    done: usize,
    stopped: bool,
}

impl View for Instance {
    type V = InstanceState;

    closed spec fn view(&self) -> InstanceState {
        InstanceState {
            kind: self.kind,
            steps: self.steps@,
            done: self.done as nat,
            phase: if self.stopped {
                Phase::Stopped
            } else if self.done < self.steps.len() {
                Phase::Starting
            } else {
                Phase::Running
            },
        }
    }
}

impl Instance {
    #[verifier::type_invariant]
    spec fn well_formed(self) -> bool {
        self.done <= self.steps.len()
    }

    /// A runtime instance of the given kind on the given settings.
    pub fn new(kind: RuntimeKind, settings: &Settings) -> (instance: Instance)
        ensures
            instance@ == InstanceState::initial(kind, *settings),
            instance@.wf(),
    {
        Instance { kind, steps: startup_steps(settings), done: 0, stopped: false }
    }

    /// How the instance schedules its work.
    pub fn kind(&self) -> (kind: RuntimeKind)
        ensures
            kind == self@.kind,
    {
        self.kind
    }

    /// Where the instance stands.
    pub fn phase(&self) -> (phase: Phase)
        ensures
            phase == self@.phase,
    {
        if self.stopped {
            Phase::Stopped
        } else if self.done < self.steps.len() {
            Phase::Starting
        } else {
            Phase::Running
        }
    }

    /// What the instance is waiting for the outside to do.
    pub fn pending(&self) -> (action: Action)
        ensures
            action == self@.pending(),
            self@.wf(),
    {
        proof {
            use_type_invariant(self);
        }
        if self.stopped {
            Action::Exit
        } else if self.done < self.steps.len() {
            Action::Perform(self.steps[self.done].clone())
        } else {
            Action::Serve
        }
    }

    /// Takes an event in and says what to do next.
    pub fn on_event(&mut self, event: Event) -> (action: Action)
        ensures
            final(self)@ == old(self)@.after(event),
            action == old(self)@.reaction(event),
            final(self)@.wf(),
    {
        proof {
            use_type_invariant(&*self);
        }
        if !self.stopped {
            if self.done < self.steps.len() {
                match event {
                    Event::StepSucceeded => {
                        self.done = self.done + 1;
                    },
                    Event::StepFailed => {
                        self.stopped = true;
                        return Action::Abort;
                    },
                    Event::Idle => {},
                }
            } else {
                match event {
                    Event::Idle => {
                        self.stopped = true;
                    },
                    _ => {},
                }
            }
        }
        self.pending()
    }
}

/// The addresses that the listeners of the given settings bind: that of the
/// TLS listener, if there is one, then that of the plaintext listener, if
/// there is one.
pub open spec fn listener_addresses(settings: Settings) -> Seq<HostPort> {
    let tls = match settings.https {
        Some(https) => seq![https.host_port],
        None => Seq::empty(),
    };
    let plain = match settings.http {
        Some(http) => seq![http.host_port],
        None => Seq::empty(),
    };
    tls + plain
}

/// The steps of an instance bind the addresses of the configured listeners,
/// each once, and no other.
pub proof fn lemma_steps_bind_the_listeners(settings: Settings)
    ensures
        bound_addresses(startup_sequence(settings)) == listener_addresses(settings),
{
    let steps = startup_sequence(settings);
    reveal_with_fuel(bound_addresses, 4);
    match (settings.https, settings.http) {
        (Some(https), Some(http)) => {
            assert(steps.drop_last() =~= seq![steps[0], steps[1]]);
            assert(steps.drop_last().drop_last() =~= seq![steps[0]]);
            assert(steps.drop_last().drop_last().drop_last() =~= Seq::<Step>::empty());
        },
        (Some(https), None) => {
            assert(steps.drop_last() =~= seq![steps[0]]);
            assert(steps.drop_last().drop_last() =~= Seq::<Step>::empty());
        },
        (None, Some(http)) => {
            assert(steps.drop_last() =~= Seq::<Step>::empty());
        },
        (None, None) => {},
    }
    assert(bound_addresses(steps) =~= listener_addresses(settings));
}

/// With only the plaintext listener configured, an instance binds exactly one
/// address, and the instance on the settings with the ports moved up by one
/// binds the same host on the next port.
pub proof fn lemma_plaintext_only_binds_once(settings: Settings)
    requires
        settings.https is None,
        settings.http is Some,
        settings.can_shift(1),
    ensures
        bound_addresses(startup_sequence(settings)) == seq![settings.http->0.host_port],
        bound_addresses(startup_sequence(settings.shifted(1))) == seq![
            HostPort {
                host: settings.http->0.host_port.host,
                port: (settings.http->0.host_port.port + 1) as u16,
            },
        ],
{
    lemma_steps_bind_the_listeners(settings);
    lemma_steps_bind_the_listeners(settings.shifted(1));
    assert(listener_addresses(settings) =~= seq![settings.http->0.host_port]);
    assert(listener_addresses(settings.shifted(1)) =~= seq![settings.http->0.host_port.shifted(1)]);
}

/// Whatever is configured, the instance on the settings with the ports moved
/// up by one binds as many addresses as the instance on the settings
/// themselves, each on the same host and on the port one above.
pub proof fn lemma_ports_one_apart(settings: Settings)
    requires
        settings.can_shift(1),
    ensures
        bound_addresses(startup_sequence(settings.shifted(1))).len() == bound_addresses(
            startup_sequence(settings),
        ).len(),
        forall|i: int|
            0 <= i < bound_addresses(startup_sequence(settings)).len() ==> {
                let first = #[trigger] bound_addresses(startup_sequence(settings))[i];
                let second = bound_addresses(startup_sequence(settings.shifted(1)))[i];
                second.host == first.host && second.port == first.port + 1
            },
{
    lemma_steps_bind_the_listeners(settings);
    lemma_steps_bind_the_listeners(settings.shifted(1));
}

/// With a TLS listener configured, the TLS context is built before anything
/// is bound: where that fails, the instance stops with no address bound, and
/// whatever comes in afterwards leaves it so.
pub proof fn lemma_tls_failure_binds_nothing(kind: RuntimeKind, settings: Settings, later: Event)
    requires
        settings.https is Some,
    ensures
        InstanceState::initial(kind, settings).pending() == Action::Perform(
            Step::LoadTls {
                cert_pem: settings.https->0.cert_pem,
                key_rsa_pem: settings.https->0.key_rsa_pem,
            },
        ),
        InstanceState::initial(kind, settings).reaction(Event::StepFailed) == Action::Abort,
        InstanceState::initial(kind, settings).after(Event::StepFailed).phase == Phase::Stopped,
        InstanceState::initial(kind, settings).after(Event::StepFailed).bound() == Seq::<
            HostPort,
        >::empty(),
        InstanceState::initial(kind, settings).after(Event::StepFailed).after(later)
            == InstanceState::initial(kind, settings).after(Event::StepFailed),
{
    let stopped = InstanceState::initial(kind, settings).after(Event::StepFailed);
    assert(stopped.steps.take(0) =~= Seq::<Step>::empty());
}

/// A failed step stops a starting instance for good: it never runs, and no
/// further address is bound.
pub proof fn lemma_failure_is_final(state: InstanceState, later: Event)
    requires
        state.wf(),
        state.phase is Starting,
    ensures
        state.after(Event::StepFailed).phase == Phase::Stopped,
        state.after(Event::StepFailed).bound() == state.bound(),
        state.after(Event::StepFailed).after(later) == state.after(Event::StepFailed),
{
}

/// An instance that runs has done every step: what it serves is the whole
/// set of configured listeners, never a part of it.
pub proof fn lemma_running_serves_every_listener(settings: Settings, state: InstanceState)
    requires
        state.wf(),
        state.steps == startup_sequence(settings),
        state.phase is Running,
    ensures
        state.bound() == listener_addresses(settings),
{
    lemma_steps_bind_the_listeners(settings);
    assert(state.steps.take(state.done as int) =~= state.steps);
}

/// Every event keeps a well-formed state well-formed, and no step is ever
/// undone.
pub proof fn lemma_events_keep_order(state: InstanceState, event: Event)
    requires
        state.wf(),
    ensures
        state.after(event).wf(),
        state.after(event).steps == state.steps,
        state.after(event).kind == state.kind,
        state.done <= state.after(event).done <= state.done + 1,
{
}

/// The settings that each of the two runtime instances starts on, and how
/// long the second waits for the first.
#[derive(Debug, PartialEq, Eq)]
pub struct LaunchPlan {
    /// The settings of the single-threaded instance, which starts first.
    pub single_threaded: Settings,
    /// The pause between the two starts, in milliseconds.
    pub startup_delay_millis: u64,
    /// The settings of the multi-threaded instance.
    pub multi_threaded: Settings,
}

/// The pause between the two starts, in milliseconds.
pub const STARTUP_DELAY_MILLIS: u64 = 10;

/// Plans the two starts: the single-threaded instance on the settings as they
/// are, the multi-threaded one on the settings with every port moved up by
/// one. There is no plan where a configured port has no next port.
pub fn launch_plan(settings: Settings) -> (plan: Option<LaunchPlan>)
    ensures
        plan == if settings.can_shift(1) {
            Some(
                LaunchPlan {
                    single_threaded: settings,
                    startup_delay_millis: STARTUP_DELAY_MILLIS,
                    multi_threaded: settings.shifted(1),
                },
            )
        } else {
            None
        },
{
    if !settings.can_increment_ports() {
        return None;
    }
    let single_threaded = settings.clone();
    let mut multi_threaded = settings;
    multi_threaded.increment_ports();
    Some(LaunchPlan { single_threaded, startup_delay_millis: STARTUP_DELAY_MILLIS, multi_threaded })
}

} // verus!
