//! Concurrency and protocol core of a client-side telemetry SDK.
//!
//! The crate sequences every mutating API call issued before the SDK has
//! finished its asynchronous initialization into a strictly ordered queue,
//! replays the queue once initialization completes, and defines the
//! pull-based handshake by which an uploader retrieves pending telemetry
//! submissions and reports their outcomes.
//!
//! The crate owns no I/O and spawns no threads: the metrics engine, the
//! on-disk ping store and the network transport are external collaborators.
//! The embedding application performs those effects and feeds the results
//! back in as plain values; everything that decides ordering, gating and
//! retry behaviour lives here, with contracts.

use vstd::prelude::*;

pub mod dispatcher;
pub mod ffi;
mod init_gate;
pub mod private;
mod state;
pub mod startup;
pub mod upload;

pub use init_gate::InitGate;
pub use init_gate::begin_transition;
pub use state::GlobalStateCell;
pub use state::RustBindingsState;

use dispatcher::Dispatcher;
use dispatcher::LaunchOutcome;
use dispatcher::Operation;
use private::PingType;

verus! {

/// A misuse of the initialization protocol. Always logged by the embedding
/// application and never propagated as a crash: the offending call is a
/// no-op.
#[derive(Clone, Copy, Debug, PartialEq, Eq)]
pub enum ProtocolMisuseError {
    /// `initialize` was called although an initialization was already
    /// started.
    DoubleInitialize,
    /// `flush_init` was called although the pre-init queue was already
    /// drained.
    DoubleFlush,
    /// A call that needs the initialized SDK state was made before any
    /// initialization was started.
    UninitializedAccess,
}

/// The configuration an application initializes the SDK with.
#[derive(Debug, PartialEq, Eq)]
pub struct Configuration {
    /// Path to the directory the engine persists its data under.
    pub data_path: String,
    /// The application's identifier.
    pub application_id: String,
    /// Whether upload starts out enabled.
    pub upload_enabled: bool,
    /// A cap on stored events, when the application sets one.
    pub max_events: Option<u32>,
    /// Whether ping-lifetime data may be persisted lazily.
    pub delay_ping_lifetime_io: bool,
    /// The channel the application is distributed on.
    pub channel: Option<String>,
}

/// The client-identity values the application supplies, recorded as core
/// metrics at startup.
#[derive(Debug, PartialEq, Eq)]
pub struct ClientInfoMetrics {
    /// The application's build identifier.
    pub app_build: String,
    /// The application's user-visible version string.
    pub app_display_version: String,
}

impl ClientInfoMetrics {
    /// Placeholder client info for applications that cannot tell.
    pub fn unknown() -> (r: ClientInfoMetrics)
        ensures
            r.app_build@ == "unknown"@,
            r.app_display_version@ == "unknown"@,
    {
        ClientInfoMetrics {
            app_build: "unknown".to_owned(),
            app_display_version: "unknown".to_owned(),
        }
    }
}

/// What `initialize` decided.
#[derive(Debug, PartialEq, Eq)]
pub enum InitDecision {
    /// This call won the one-time transition: the embedding application must spawn the
    /// background worker and run the startup sequence with the
    /// configuration and client info handed back here.
    SpawnStartup {
        /// The configuration to build the engine from.
        cfg: Configuration,
        /// The client info to record at startup.
        client_info: ClientInfoMetrics,
    },
    /// An initialization was already started: log and do nothing.
    AlreadyInitialized,
}

/// The process-scoped context of the SDK core: the initialization gate, the
/// pre-init queue and the global state cell, owned together so that a test
/// reset tears all three down at once and no half-reset state can exist.
pub struct Glean {
    /// Records whether initialization was requested.
    pub gate: InitGate,
    /// The pre-init queue of deferred operations.
    pub dispatcher: Dispatcher,
    /// The lazily created SDK-wide state.
    pub state: GlobalStateCell,
}

impl Glean {
    /// A fresh context: gate not begun, queue buffering and empty, no state
    /// published.
    pub fn new() -> (g: Glean)
        ensures
            !g.gate.spec_has_begun(),
            !g.dispatcher.spec_flushed(),
            g.dispatcher.queued().len() == 0,
            !g.state.spec_is_set(),
    {
        Glean { gate: InitGate::new(), dispatcher: Dispatcher::new(), state: GlobalStateCell::new() }
    }

    /// Requests the one-time initialization. The first call wins
    /// and gets the configuration back to run the startup sequence on a
    /// background worker; every other call is rejected and changes nothing.
    /// The init flag is set here, before any startup work runs, so concurrent
    /// callers are rejected even while startup is still in progress.
    pub fn initialize(&mut self, cfg: Configuration, client_info: ClientInfoMetrics) -> (r:
        InitDecision)
        ensures
            old(self).gate.spec_has_begun() ==> {
                &&& r is AlreadyInitialized
                &&& *final(self) == *old(self)
            },
            !old(self).gate.spec_has_begun() ==> {
                &&& r == (InitDecision::SpawnStartup { cfg, client_info })
                &&& final(self).gate.spec_has_begun()
                &&& final(self).dispatcher == old(self).dispatcher
                &&& final(self).state == old(self).state
            },
    {
        let won = self.gate.begin();
        if won {
            InitDecision::SpawnStartup { cfg, client_info }
        } else {
            InitDecision::AlreadyInitialized
        }
    }

    /// Whether `initialize` was ever called, readable from any thread at
    /// any time. The initialization may still be in progress.
    pub fn was_initialize_called(&self) -> (r: bool)
        ensures
            r == self.gate.spec_has_begun(),
    {
        self.gate.has_begun()
    }

    /// Publishes (or wholesale replaces) the SDK-wide state. Called once at
    /// the end of a successful startup sequence, and again only on a test
    /// reset.
    pub fn setup_state(&mut self, state: RustBindingsState)
        ensures
            final(self).state.spec_state() == Some(state),
            final(self).gate == old(self).gate,
            final(self).dispatcher == old(self).dispatcher,
    {
        self.state.replace(state);
    }

    /// The published SDK-wide state. Calling before the startup sequence
    /// published it is a programming error, which this contract rules out.
    pub fn global_state(&self) -> (r: &RustBindingsState)
        requires
            self.state.spec_is_set(),
        ensures
            self.state.spec_state() == Some(*r),
    {
        self.state.get()
    }

    /// Sets whether upload is enabled. Before `initialize` was called this
    /// is a misuse: the embedding application logs it and nothing changes.
    /// Afterwards the toggle is launched through the queue, so it executes
    /// in order relative to the caller's other calls.
    pub fn set_upload_enabled(&mut self, enabled: bool) -> (r: Result<
        LaunchOutcome,
        ProtocolMisuseError,
    >)
        ensures
            !old(self).gate.spec_has_begun() ==> {
                &&& r == Result::<LaunchOutcome, ProtocolMisuseError>::Err(
                    ProtocolMisuseError::UninitializedAccess,
                )
                &&& *final(self) == *old(self)
            },
            old(self).gate.spec_has_begun() ==> {
                &&& (r matches Ok(outcome) && dispatcher::launch_transition(
                    old(self).dispatcher,
                    final(self).dispatcher,
                    Operation::SetUploadEnabled(enabled),
                    outcome,
                ))
                &&& final(self).gate == old(self).gate
                &&& final(self).state == old(self).state
            },
    {
        if !self.gate.has_begun() {
            return Err(ProtocolMisuseError::UninitializedAccess);
        }
        Ok(self.dispatcher.launch(Operation::SetUploadEnabled(enabled)))
    }

    /// Registers a ping type. Launched through the queue unconditionally:
    /// before the flush it is buffered, afterwards it runs immediately.
    pub fn register_ping_type(&mut self, ping: &PingType) -> (r: LaunchOutcome)
        ensures
            dispatcher::launch_transition(
                old(self).dispatcher,
                final(self).dispatcher,
                Operation::RegisterPingType(*ping),
                r,
            ),
            final(self).gate == old(self).gate,
            final(self).state == old(self).state,
    {
        self.dispatcher.launch(Operation::RegisterPingType(ping.clone()))
    }

    /// Collects and submits a ping for eventual uploading.
    pub fn submit_ping(&mut self, ping: &PingType, reason: Option<&str>) -> (r: LaunchOutcome)
        ensures
            submit_launched(
                old(self).dispatcher,
                final(self).dispatcher,
                ping.name@,
                startup::channel_model(reason),
                r,
            ),
            final(self).gate == old(self).gate,
            final(self).state == old(self).state,
    {
        self.submit_ping_by_name(ping.name.as_str(), reason)
    }

    /// Collects and submits a ping for eventual uploading, by name.
    /// Launched through the queue unconditionally, like every mutating
    /// call.
    pub fn submit_ping_by_name(&mut self, ping: &str, reason: Option<&str>) -> (r: LaunchOutcome)
        ensures
            submit_launched(
                old(self).dispatcher,
                final(self).dispatcher,
                ping@,
                startup::channel_model(reason),
                r,
            ),
            final(self).gate == old(self).gate,
            final(self).state == old(self).state,
    {
        let reason_owned: Option<String> = match reason {
            Some(r) => Some(r.to_owned()),
            None => None,
        };
        self.dispatcher.launch(Operation::SubmitPingByName { name: ping.to_owned(), reason: reason_owned })
    }

    /// Releases the pre-init queue: called by the background worker as the
    /// last step of the startup sequence. Hands back the buffered
    /// operations, in launch order, for the worker to run. Calling before
    /// any initialization was started, or a second time, is a misuse and
    /// changes nothing.
    pub fn flush_init(&mut self) -> (r: Result<Vec<Operation>, ProtocolMisuseError>)
        ensures
            !old(self).gate.spec_has_begun() ==> {
                &&& r == Result::<Vec<Operation>, ProtocolMisuseError>::Err(
                    ProtocolMisuseError::UninitializedAccess,
                )
                &&& *final(self) == *old(self)
            },
            old(self).gate.spec_has_begun() ==> {
                &&& dispatcher::flush_transition(old(self).dispatcher, final(self).dispatcher, r)
                &&& final(self).gate == old(self).gate
                &&& final(self).state == old(self).state
            },
    {
        if !self.gate.has_begun() {
            return Err(ProtocolMisuseError::UninitializedAccess);
        }
        self.dispatcher.flush_init()
    }

    /// The bundled test-only teardown: gate, queue and state cell are reset
    /// together, never independently, so no half-reset state (a begun gate
    /// with nothing behind it) can be observed.
    pub fn teardown(&mut self)
        ensures
            !final(self).gate.spec_has_begun(),
            !final(self).dispatcher.spec_flushed(),
            final(self).dispatcher.queued().len() == 0,
            !final(self).state.spec_is_set(),
    {
        self.gate = InitGate::new();
        self.dispatcher = Dispatcher::new();
        self.state.clear();
    }
}

/// Holds when one submit call launched exactly one submission operation
/// carrying the given name and reason: buffered in launch order before the
/// flush, handed back for immediate execution after it.
pub open spec fn submit_launched(
    pre: Dispatcher,
    post: Dispatcher,
    name: Seq<char>,
    reason: Option<Seq<char>>,
    r: LaunchOutcome,
) -> bool {
    if pre.spec_flushed() {
        &&& post == pre
        &&& (r matches LaunchOutcome::RunNow(op) && is_submit_op(op, name, reason))
    } else {
        &&& !post.spec_flushed()
        &&& post.queued().len() == pre.queued().len() + 1
        &&& post.queued().drop_last() =~= pre.queued()
        &&& is_submit_op(post.queued().last(), name, reason)
        &&& r is Queued
    }
}

/// Whether an operation is the submission of the ping `name` with the given
/// reason.
pub open spec fn is_submit_op(op: Operation, name: Seq<char>, reason: Option<Seq<char>>) -> bool {
    &&& op matches Operation::SubmitPingByName { name: n, reason: re }
    &&& n@ == name
    &&& match (re, reason) {
        (Some(a), Some(b)) => a@ == b,
        (None, None) => true,
        _ => false,
    }
}

} // verus!
