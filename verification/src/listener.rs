//! The life of the listener, from its configuration to its termination.
//!
//! The listener is a state machine that never touches the outside world
//! itself. It is told what happened ([`Event`]) and answers with its new
//! [`Phase`] and with what has to be done next ([`Action`]); the program that
//! drives it carries the action out and reports back.

use crate::cli::{plan, plan_of, Plan, ServerArgs};
use crate::tls::ConfigError;
use rustls::ServerConfig;
use std::path::PathBuf;
use vstd::prelude::*;

verus! {

/// How long in-flight connections may take to finish once shutdown has begun,
/// in seconds.
pub const GRACE_PERIOD: u64 = 5;

/// The five stages a listener passes through, in this order.
#[derive(Debug, Clone, Copy, PartialEq, Eq, Structural)]
pub enum Stage {
    /// Nothing has been decided yet.
    Unconfigured,
    /// The listener is being set up: collectors, TLS material, socket.
    Binding,
    /// Connections are accepted and served.
    Listening,
    /// No new connections; in-flight ones may still finish.
    Draining,
    /// The listener is gone, by shutdown or by a fatal error.
    Terminated,
}

/// Where exactly the listener stands. `Stage::Binding` is made of four steps.
#[derive(Debug, Clone, Copy, PartialEq, Eq, Structural)]
pub enum Phase {
    /// Waiting to be started.
    Unconfigured,
    /// The metrics collectors are being registered.
    Instrumenting,
    /// The certificate and key files are being looked for.
    ProbingPaths,
    /// The TLS configuration is being built.
    ConfiguringTls,
    /// The socket is being bound to this port.
    BindingSocket { port: u16 },
    /// Serving.
    Listening,
    /// Shutting down within the grace period.
    Draining,
    /// Done.
    Terminated,
}

/// How the socket is served, decided once and handed to the bind.
#[derive(Debug)]
pub enum ListenerMode {
    /// Plaintext HTTP.
    Plain,
    /// HTTP over TLS with this configuration.
    Tls(ServerConfig),
}

/// An error that ends the start-up. Nothing is served after it.
#[derive(Debug, PartialEq)]
pub enum FatalError {
    /// Exactly one of the certificate path and the key path was given.
    IncompleteTls,
    /// TLS was asked for and could not be set up.
    Tls(ConfigError),
    /// The socket at this address and port could not be bound.
    BindFailed { address: String, port: u16 },
}

/// What the driving program reports to the listener.
#[derive(Debug)]
pub enum Event {
    /// The configuration is loaded; start up.
    Start,
    /// The metrics collectors are registered.
    CollectorsRegistered,
    /// Whether the certificate file and the key file exist.
    PathsProbed { cert_exists: bool, key_exists: bool },
    /// The TLS configurator has finished.
    TlsConfigured(Result<ServerConfig, ConfigError>),
    /// The socket is bound.
    Bound,
    /// The socket could not be bound.
    BindFailed,
    /// A termination signal arrived.
    ShutdownSignal,
    /// Every in-flight connection finished within the grace period.
    Drained,
    /// The grace period ran out with connections still open.
    GraceElapsed,
}

/// What the listener asks the driving program to do.
#[derive(Debug)]
pub enum Action {
    /// Register the metrics collectors with the process-wide registry.
    RegisterCollectors,
    /// Find out whether these two files exist.
    ProbePaths { server_cert: PathBuf, server_key: PathBuf },
    /// Read these two files and run the TLS configurator on them.
    ConfigureTls { server_cert: PathBuf, server_key: PathBuf },
    /// Bind the socket.
    Bind { address: String, port: u16, mode: ListenerMode },
    /// Start accepting connections.
    Serve,
    /// Stop accepting connections and give the open ones this many seconds.
    Drain { grace_period: u64 },
    /// Close the connections that are still open and end the process normally.
    ForceClose,
    /// End the process normally.
    Exit,
    /// End the process with this error.
    Fail(FatalError),
    /// Nothing to do: the event was not expected here.
    Ignore,
}

impl Phase {
    /// The stage this phase belongs to.
    pub open spec fn stage(self) -> Stage {
        match self {
            Phase::Unconfigured => Stage::Unconfigured,
            Phase::Instrumenting => Stage::Binding,
            Phase::ProbingPaths => Stage::Binding,
            Phase::ConfiguringTls => Stage::Binding,
            Phase::BindingSocket { .. } => Stage::Binding,
            Phase::Listening => Stage::Listening,
            Phase::Draining => Stage::Draining,
            Phase::Terminated => Stage::Terminated,
        }
    }

    /// The position of this phase in the listener's life.
    pub open spec fn rank(self) -> nat {
        match self {
            Phase::Unconfigured => 0,
            Phase::Instrumenting => 1,
            Phase::ProbingPaths => 2,
            Phase::ConfiguringTls => 3,
            Phase::BindingSocket { .. } => 4,
            Phase::Listening => 5,
            Phase::Draining => 6,
            Phase::Terminated => 7,
        }
    }

    /// Computes the stage this phase belongs to.
    pub fn current_stage(self) -> (s: Stage)
        ensures
            s == self.stage(),
    {
        match self {
            Phase::Unconfigured => Stage::Unconfigured,
            Phase::Instrumenting => Stage::Binding,
            Phase::ProbingPaths => Stage::Binding,
            Phase::ConfiguringTls => Stage::Binding,
            Phase::BindingSocket { .. } => Stage::Binding,
            Phase::Listening => Stage::Listening,
            Phase::Draining => Stage::Draining,
            Phase::Terminated => Stage::Terminated,
        }
    }
}

/// The transition function: the phase that follows `at` on `event`, and the
/// action that goes with the transition.
///
/// An event that the phase and the plan do not expect changes nothing and
/// asks for nothing.
pub open spec fn next(config: ServerArgs, at: Phase, event: Event) -> (Phase, Action) {
    match (at, event, plan(config)) {
        (Phase::Unconfigured, Event::Start, Plan::Incomplete) => (
            Phase::Terminated,
            Action::Fail(FatalError::IncompleteTls),
        ),
        (Phase::Unconfigured, Event::Start, _) => (Phase::Instrumenting, Action::RegisterCollectors),
        (Phase::Instrumenting, Event::CollectorsRegistered, Plan::Plain) => (
            Phase::BindingSocket { port: config.port },
            Action::Bind { address: config.interface, port: config.port, mode: ListenerMode::Plain },
        ),
        (
            Phase::Instrumenting,
            Event::CollectorsRegistered,
            Plan::Tls { server_cert, server_key },
        ) => (Phase::ProbingPaths, Action::ProbePaths { server_cert, server_key }),
        (Phase::Instrumenting, Event::CollectorsRegistered, Plan::Incomplete) => (
            Phase::Terminated,
            Action::Fail(FatalError::IncompleteTls),
        ),
        (
            Phase::ProbingPaths,
            Event::PathsProbed { cert_exists, key_exists },
            Plan::Tls { server_cert, server_key },
        ) => if !cert_exists {
            (
                Phase::Terminated,
                Action::Fail(FatalError::Tls(ConfigError::FileNotFound(server_cert))),
            )
        } else if !key_exists {
            (Phase::Terminated, Action::Fail(FatalError::Tls(ConfigError::FileNotFound(server_key))))
        } else {
            (Phase::ConfiguringTls, Action::ConfigureTls { server_cert, server_key })
        },
        (Phase::ConfiguringTls, Event::TlsConfigured(Ok(tls)), Plan::Tls { .. }) => (
            Phase::BindingSocket { port: config.ssl.ssl_port },
            Action::Bind {
                address: config.interface,
                port: config.ssl.ssl_port,
                mode: ListenerMode::Tls(tls),
            },
        ),
        (Phase::ConfiguringTls, Event::TlsConfigured(Err(e)), Plan::Tls { .. }) => (
            Phase::Terminated,
            Action::Fail(FatalError::Tls(e)),
        ),
        (Phase::BindingSocket { .. }, Event::Bound, _) => (Phase::Listening, Action::Serve),
        (Phase::BindingSocket { port }, Event::BindFailed, _) => (
            Phase::Terminated,
            Action::Fail(FatalError::BindFailed { address: config.interface, port }),
        ),
        (Phase::Listening, Event::ShutdownSignal, _) => (
            Phase::Draining,
            Action::Drain { grace_period: GRACE_PERIOD },
        ),
        (Phase::Draining, Event::Drained, _) => (Phase::Terminated, Action::Exit),
        (Phase::Draining, Event::GraceElapsed, _) => (Phase::Terminated, Action::ForceClose),
        _ => (at, Action::Ignore),
    }
}

/// Takes one step: given where the listener stands and what happened, returns
/// where it stands now and what to do.
pub fn step(config: &ServerArgs, at: Phase, event: Event) -> (r: (Phase, Action))
    ensures
        r == next(*config, at, event),
{
    match at {
        Phase::Unconfigured => match event {
            Event::Start => match plan_of(config) {
                Plan::Incomplete => (Phase::Terminated, Action::Fail(FatalError::IncompleteTls)),
                _ => (Phase::Instrumenting, Action::RegisterCollectors),
            },
            _ => (at, Action::Ignore),
        },
        Phase::Instrumenting => match event {
            Event::CollectorsRegistered => match plan_of(config) {
                Plan::Plain => (
                    Phase::BindingSocket { port: config.port },
                    Action::Bind {
                        address: config.interface.clone(),
                        port: config.port,
                        mode: ListenerMode::Plain,
                    },
                ),
                Plan::Tls { server_cert, server_key } => (
                    Phase::ProbingPaths,
                    Action::ProbePaths { server_cert, server_key },
                ),
                Plan::Incomplete => (Phase::Terminated, Action::Fail(FatalError::IncompleteTls)),
            },
            _ => (at, Action::Ignore),
        },
        Phase::ProbingPaths => match event {
            Event::PathsProbed { cert_exists, key_exists } => match plan_of(config) {
                Plan::Tls { server_cert, server_key } => {
                    if !cert_exists {
                        (
                            Phase::Terminated,
                            Action::Fail(FatalError::Tls(ConfigError::FileNotFound(server_cert))),
                        )
                    } else if !key_exists {
                        (
                            Phase::Terminated,
                            Action::Fail(FatalError::Tls(ConfigError::FileNotFound(server_key))),
                        )
                    } else {
                        (Phase::ConfiguringTls, Action::ConfigureTls { server_cert, server_key })
                    }
                },
                _ => (at, Action::Ignore),
            },
            _ => (at, Action::Ignore),
        },
        Phase::ConfiguringTls => match event {
            Event::TlsConfigured(outcome) => match plan_of(config) {
                Plan::Tls { .. } => match outcome {
                    Ok(tls) => (
                        Phase::BindingSocket { port: config.ssl.ssl_port },
                        Action::Bind {
                            address: config.interface.clone(),
                            port: config.ssl.ssl_port,
                            mode: ListenerMode::Tls(tls),
                        },
                    ),
                    Err(e) => (Phase::Terminated, Action::Fail(FatalError::Tls(e))),
                },
                _ => (at, Action::Ignore),
            },
            _ => (at, Action::Ignore),
        },
        Phase::BindingSocket { port } => match event {
            Event::Bound => (Phase::Listening, Action::Serve),
            Event::BindFailed => (
                Phase::Terminated,
                Action::Fail(FatalError::BindFailed { address: config.interface.clone(), port }),
            ),
            _ => (at, Action::Ignore),
        },
        Phase::Listening => match event {
            Event::ShutdownSignal => (Phase::Draining, Action::Drain { grace_period: GRACE_PERIOD }),
            _ => (at, Action::Ignore),
        },
        Phase::Draining => match event {
            Event::Drained => (Phase::Terminated, Action::Exit),
            Event::GraceElapsed => (Phase::Terminated, Action::ForceClose),
            _ => (at, Action::Ignore),
        },
        Phase::Terminated => (at, Action::Ignore),
    }
}

impl Action {
    /// A fatal error other than a failed bind: start-up ended before any
    /// socket was asked for.
    pub open spec fn fails_before_bind(self) -> bool {
        self matches Action::Fail(e) && !(e is BindFailed)
    }
}

/// What a whole sequence of events leads to, starting from `at`: the phase
/// reached at the end, and the action of every step in order.
pub open spec fn run(config: ServerArgs, at: Phase, events: Seq<Event>) -> (Phase, Seq<Action>)
    decreases events.len(),
{
    if events.len() == 0 {
        (at, Seq::<Action>::empty())
    } else {
        let first = next(config, at, events[0]);
        let rest = run(config, first.0, events.drop_first());
        (rest.0, seq![first.1] + rest.1)
    }
}

/// A step is either ignored, and then the phase stays, or it moves the
/// listener strictly forward: `Unconfigured`, `Binding`, `Listening`,
/// `Draining`, `Terminated` are passed in this order and never revisited.
pub proof fn phases_move_forward(config: ServerArgs, at: Phase, event: Event)
    ensures
        next(config, at, event).1 is Ignore ==> next(config, at, event).0 == at,
        !(next(config, at, event).1 is Ignore) ==> at.rank() < next(config, at, event).0.rank(),
{
}

/// Every step answers with exactly one action, and no sequence of events
/// takes the listener back to an earlier phase.
pub proof fn run_moves_forward(config: ServerArgs, at: Phase, events: Seq<Event>)
    ensures
        run(config, at, events).1.len() == events.len(),
        at.rank() <= run(config, at, events).0.rank(),
    decreases events.len(),
{
    if events.len() > 0 {
        let first = next(config, at, events[0]);
        phases_move_forward(config, at, events[0]);
        run_moves_forward(config, first.0, events.drop_first());
    }
}

/// Once terminated, the listener stays terminated and asks for nothing more,
/// whatever it is told.
pub proof fn terminated_is_final(config: ServerArgs, events: Seq<Event>)
    ensures
        run(config, Phase::Terminated, events).0 == Phase::Terminated,
        forall|i: int|
            0 <= i < events.len() ==> #[trigger] run(config, Phase::Terminated, events).1[i]
                is Ignore,
    decreases events.len(),
{
    if events.len() > 0 {
        let tail = events.drop_first();
        terminated_is_final(config, tail);
        run_moves_forward(config, Phase::Terminated, tail);
        assert forall|i: int| 0 <= i < events.len() implies #[trigger] run(
            config,
            Phase::Terminated,
            events,
        ).1[i] is Ignore by {
            if i > 0 {
                assert(run(config, Phase::Terminated, events).1[i] == run(
                    config,
                    Phase::Terminated,
                    tail,
                ).1[i - 1]);
            }
        }
    }
}

/// Where each kind of action can come from. Collectors are registered only on
/// leaving `Unconfigured`; a bind is asked for, and start-up fails for a reason
/// other than the bind, only before the socket phase; serving starts only
/// from the socket phase or earlier.
pub proof fn actions_have_their_phase(config: ServerArgs, at: Phase, events: Seq<Event>)
    ensures
        forall|i: int|
            0 <= i < events.len() ==> {
                let action = #[trigger] run(config, at, events).1[i];
                &&& action is RegisterCollectors ==> at.rank() == 0
                &&& action is Bind ==> at.rank() <= 3
                &&& action.fails_before_bind() ==> at.rank() <= 3
                &&& action is Serve ==> at.rank() <= 4
            },
    decreases events.len(),
{
    if events.len() > 0 {
        let first = next(config, at, events[0]);
        let tail = events.drop_first();
        phases_move_forward(config, at, events[0]);
        actions_have_their_phase(config, first.0, tail);
        run_moves_forward(config, first.0, tail);
        assert forall|i: int| 0 <= i < events.len() implies {
            let action = #[trigger] run(config, at, events).1[i];
            &&& action is RegisterCollectors ==> at.rank() == 0
            &&& action is Bind ==> at.rank() <= 3
            &&& action.fails_before_bind() ==> at.rank() <= 3
            &&& action is Serve ==> at.rank() <= 4
        } by {
            if i > 0 {
                assert(run(config, at, events).1[i] == run(config, first.0, tail).1[i - 1]);
            }
        }
    }
}

/// A socket is bound only as the plan says: with the plaintext port and no
/// TLS where no TLS file is named, with the TLS port and a TLS configuration
/// where both are, and always on the configured interface. The two modes
/// exclude each other.
pub proof fn bind_follows_plan(config: ServerArgs, at: Phase, event: Event)
    ensures
        next(config, at, event).1 matches Action::Bind { address, port, mode } ==> {
            &&& address == config.interface
            &&& next(config, at, event).0 == Phase::BindingSocket { port }
            &&& mode is Plain ==> plan(config) is Plain && port == config.port
            &&& mode is Tls ==> plan(config) is Tls && port == config.ssl.ssl_port
        },
{
}

/// In the life of one listener a socket is bound at most once and the
/// collectors are registered at most once.
pub proof fn binds_and_registers_at_most_once(config: ServerArgs, at: Phase, events: Seq<Event>)
    ensures
        forall|i: int, j: int|
            0 <= i < j < events.len() ==> {
                let first = #[trigger] run(config, at, events).1[i];
                let second = #[trigger] run(config, at, events).1[j];
                &&& !(first is Bind && second is Bind)
                &&& !(first is RegisterCollectors && second is RegisterCollectors)
            },
    decreases events.len(),
{
    if events.len() > 0 {
        let first = next(config, at, events[0]);
        let tail = events.drop_first();
        binds_and_registers_at_most_once(config, first.0, tail);
        actions_have_their_phase(config, first.0, tail);
        run_moves_forward(config, first.0, tail);
        assert forall|i: int, j: int| 0 <= i < j < events.len() implies {
            let a = #[trigger] run(config, at, events).1[i];
            let b = #[trigger] run(config, at, events).1[j];
            &&& !(a is Bind && b is Bind)
            &&& !(a is RegisterCollectors && b is RegisterCollectors)
        } by {
            assert(run(config, at, events).1[j] == run(config, first.0, tail).1[j - 1]);
            if i > 0 {
                assert(run(config, at, events).1[i] == run(config, first.0, tail).1[i - 1]);
            }
        }
    }
}

/// A start-up that fails for any reason other than the bind itself never
/// asks for a socket: not before the failure and not after it. This covers a
/// half-given TLS configuration, a missing certificate or key file and TLS
/// material that cannot be used.
pub proof fn early_failure_never_binds(config: ServerArgs, at: Phase, events: Seq<Event>)
    ensures
        forall|i: int, j: int|
            0 <= i < events.len() && 0 <= j < events.len() ==> !((#[trigger] run(
                config,
                at,
                events,
            ).1[i]).fails_before_bind() && (#[trigger] run(config, at, events).1[j]) is Bind),
    decreases events.len(),
{
    if events.len() > 0 {
        let first = next(config, at, events[0]);
        let tail = events.drop_first();
        early_failure_never_binds(config, first.0, tail);
        actions_have_their_phase(config, first.0, tail);
        run_moves_forward(config, first.0, tail);
        assert forall|i: int, j: int| 0 <= i < events.len() && 0 <= j < events.len() implies !((
        #[trigger] run(config, at, events).1[i]).fails_before_bind() && (#[trigger] run(
            config,
            at,
            events,
        ).1[j]) is Bind) by {
            if i > 0 {
                assert(run(config, at, events).1[i] == run(config, first.0, tail).1[i - 1]);
            }
            if j > 0 {
                assert(run(config, at, events).1[j] == run(config, first.0, tail).1[j - 1]);
            }
        }
    }
}

/// With exactly one of the two TLS files named, the listener fails on its
/// first step and no sequence of events makes it bind: there is no fallback
/// to plaintext.
pub proof fn incomplete_tls_never_binds(config: ServerArgs, events: Seq<Event>)
    requires
        plan(config) is Incomplete,
    ensures
        next(config, Phase::Unconfigured, Event::Start) == (
            Phase::Terminated,
            Action::Fail(FatalError::IncompleteTls),
        ),
        forall|i: int|
            0 <= i < events.len() ==> !(#[trigger] run(config, Phase::Unconfigured, events).1[i]
                is Bind),
{
    incomplete_tls_binds_nowhere(config, Phase::Unconfigured, events);
}

/// The induction behind [`incomplete_tls_never_binds`]: no phase binds under
/// an incomplete plan.
proof fn incomplete_tls_binds_nowhere(config: ServerArgs, at: Phase, events: Seq<Event>)
    requires
        plan(config) is Incomplete,
    ensures
        forall|i: int| 0 <= i < events.len() ==> !(#[trigger] run(config, at, events).1[i] is Bind),
    decreases events.len(),
{
    if events.len() > 0 {
        let first = next(config, at, events[0]);
        let tail = events.drop_first();
        incomplete_tls_binds_nowhere(config, first.0, tail);
        run_moves_forward(config, first.0, tail);
        assert forall|i: int| 0 <= i < events.len() implies !(#[trigger] run(
            config,
            at,
            events,
        ).1[i] is Bind) by {
            if i > 0 {
                assert(run(config, at, events).1[i] == run(config, first.0, tail).1[i - 1]);
            }
        }
    }
}

/// A certificate or key file that does not exist ends the start-up with
/// `FileNotFound` naming that very path, the certificate first, and whatever
/// is reported afterwards no socket is bound.
pub proof fn missing_file_is_fatal(
    config: ServerArgs,
    cert_exists: bool,
    key_exists: bool,
    later: Seq<Event>,
)
    requires
        plan(config) is Tls,
        !cert_exists || !key_exists,
    ensures
        ({
            let missing = if !cert_exists {
                config.ssl.server_cert->0
            } else {
                config.ssl.server_key->0
            };
            let probed = next(
                config,
                Phase::ProbingPaths,
                Event::PathsProbed { cert_exists, key_exists },
            );
            &&& probed.0 == Phase::Terminated
            &&& probed.1 == Action::Fail(FatalError::Tls(ConfigError::FileNotFound(missing)))
            &&& forall|i: int|
                0 <= i < later.len() ==> #[trigger] run(config, probed.0, later).1[i] is Ignore
        }),
{
    terminated_is_final(config, later);
}

/// Serving is always prepared: by the time the listener is told to serve, it
/// has asked for the collectors to be registered and then for the socket to
/// be bound.
pub proof fn serving_is_prepared(config: ServerArgs, events: Seq<Event>, k: int)
    requires
        0 <= k < events.len(),
        run(config, Phase::Unconfigured, events).1[k] is Serve,
    ensures
        exists|i: int, j: int|
            0 <= i < j < k && (#[trigger] run(config, Phase::Unconfigured, events).1[i])
                is RegisterCollectors && (#[trigger] run(config, Phase::Unconfigured, events).1[j])
                is Bind,
{
    serving_needs_bind(config, Phase::Unconfigured, events, k);
}

/// The induction behind [`serving_is_prepared`], from any phase: what is still
/// ahead of the listener at `at` comes before the serving, in order.
proof fn serving_needs_bind(config: ServerArgs, at: Phase, events: Seq<Event>, k: int)
    requires
        0 <= k < events.len(),
        run(config, at, events).1[k] is Serve,
    ensures
        at.rank() == 0 ==> exists|i: int, j: int|
            0 <= i < j < k && (#[trigger] run(config, at, events).1[i]) is RegisterCollectors && (
            #[trigger] run(config, at, events).1[j]) is Bind,
        at.rank() <= 3 ==> exists|j: int|
            0 <= j < k && (#[trigger] run(config, at, events).1[j]) is Bind,
    decreases events.len(),
{
    let first = next(config, at, events[0]);
    let tail = events.drop_first();
    let actions = run(config, at, events).1;
    let rest = run(config, first.0, tail).1;
    run_moves_forward(config, first.0, tail);
    actions_have_their_phase(config, first.0, tail);
    assert(actions[0] == first.1);
    assert forall|i: int| 0 < i < events.len() implies #[trigger] actions[i] == rest[i - 1] by {}
    if k == 0 {
        // Serve is the answer to `Bound` in the socket phase only.
        assert(at.rank() == 4);
    } else {
        assert(rest[k - 1] is Serve);
        serving_needs_bind(config, first.0, tail, k - 1);
        if at.rank() <= 3 {
            if first.1 is Bind {
                assert(actions[0] is Bind);
            } else {
                assert(first.0.rank() <= 3);
                let j = choose|j: int| 0 <= j < k - 1 && (#[trigger] rest[j]) is Bind;
                assert(actions[j + 1] is Bind);
            }
        }
        if at.rank() == 0 {
            if first.1 is RegisterCollectors {
                // The bind lies in the rest, after the registration.
                assert(first.0.rank() == 1);
                let j = choose|j: int| 0 <= j < k - 1 && (#[trigger] rest[j]) is Bind;
                assert(actions[0] is RegisterCollectors);
                assert(actions[j + 1] is Bind);
            } else {
                assert(first.0.rank() == 0);
                let (i, j) = choose|i: int, j: int|
                    0 <= i < j < k - 1 && (#[trigger] rest[i]) is RegisterCollectors && (
                    #[trigger] rest[j]) is Bind;
                assert(actions[i + 1] is RegisterCollectors);
                assert(actions[j + 1] is Bind);
            }
        }
    }
}

} // verus!
