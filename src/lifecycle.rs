use vstd::prelude::*;

use crate::models::McpServerConfig;
use crate::permissions::ServerPermissions;
use tokio_util::sync::CancellationToken;

verus! {

/// tokio_util's `CancellationToken`, carried opaquely in the running
/// server's handle.
#[verifier::external_type_specification]
#[verifier::external_body]
pub struct ExCancellationToken(CancellationToken);

/// The token that stops a server's transport, with a record of whether it
/// has been signalled.
pub struct Shutdown {
    pub token: CancellationToken,
    pub signalled: Ghost<bool>,
}

impl Shutdown {
    pub fn new(token: CancellationToken) -> (r: Shutdown)
        ensures
            r.token == token,
            !r.signalled@,
    {
        Shutdown { token, signalled: Ghost(false) }
    }
}

/// Relies on tokio_util's `CancellationToken::cancel`: it marks the token and
/// its children cancelled and wakes the tasks that wait on them.
#[verifier::external_body]
fn signal_shutdown(shutdown: &mut Shutdown)
    ensures
        final(shutdown).signalled@,
        final(shutdown).token == old(shutdown).token,
{
    shutdown.token.cancel()
}

/// The address a server listens on.
pub struct ServerAddress {
    pub host: String,
    pub port: u16,
}

impl ServerAddress {
    pub fn copied(&self) -> (r: ServerAddress)
        ensures
            r.host@ == self.host@,
            r.port == self.port,
    {
        ServerAddress { host: self.host.clone(), port: self.port }
    }
}

/// The running server: its start number, its bound address and the token
/// that stops its transport.
pub struct ServerHandle {
    pub generation: u64,
    pub addr: ServerAddress,
    pub shutdown: Shutdown,
}

/// Where the single server instance stands.
pub enum Phase {
    Stopped,
    /// A start was admitted and its listener is being bound.
    Starting { generation: u64 },
    Running { handle: ServerHandle },
}

/// What a caller of `status` sees.
pub struct ServerStatus {
    pub running: bool,
    pub address: Option<ServerAddress>,
}

/// Failures of the lifecycle operations; none of them changes the state.
#[derive(Debug, Clone)]
pub enum LifecycleError {
    AlreadyRunning,
    NotRunning,
    /// The configured port is 0; ports run from 1 to 65535.
    InvalidPort,
    /// The listener could not be bound; the text says why.
    BindError(String),
}

/// What an admitted start hands to the code that binds the listener.
pub struct StartTicket {
    pub generation: u64,
    pub addr: ServerAddress,
    pub permissions: ServerPermissions,
}

/// The single-instance server state: at most one server starts or runs at a
/// time.
pub struct LifecycleManager {
    pub phase: Phase,
    pub next_generation: u64,
}

pub open spec fn next_of(generation: u64) -> u64 {
    if generation == u64::MAX {
        0
    } else {
        (generation + 1) as u64
    }
}

/// The state after `start` and its result: a start is admitted only from
/// `Stopped`, with a valid port.
pub open spec fn start_step(m: LifecycleManager, config: McpServerConfig) -> (
    LifecycleManager,
    Result<u64, LifecycleError>,
) {
    if !(m.phase is Stopped) {
        (m, Err(LifecycleError::AlreadyRunning))
    } else if config.port == 0 {
        (m, Err(LifecycleError::InvalidPort))
    } else {
        (
            LifecycleManager {
                phase: Phase::Starting { generation: m.next_generation },
                next_generation: next_of(m.next_generation),
            },
            Ok(m.next_generation),
        )
    }
}

/// Whether a phase is the start with the given number, still binding.
pub open spec fn is_starting(phase: Phase, generation: u64) -> bool {
    phase matches Phase::Starting { generation: g } && g == generation
}

/// Whether a phase is the running server with the given number.
pub open spec fn is_running_as(phase: Phase, generation: u64) -> bool {
    phase matches Phase::Running { handle } && handle.generation == generation
}

/// The state after a listener was bound for a start: it runs if that start
/// is still the pending one.
pub open spec fn bound_step(
    m: LifecycleManager,
    generation: u64,
    addr: ServerAddress,
    shutdown: CancellationToken,
) -> (LifecycleManager, bool) {
    if is_starting(m.phase, generation) {
        (
            LifecycleManager {
                phase: Phase::Running {
                    handle: ServerHandle {
                        generation,
                        addr,
                        shutdown: Shutdown { token: shutdown, signalled: Ghost(false) },
                    },
                },
                next_generation: m.next_generation,
            },
            true,
        )
    } else {
        (m, false)
    }
}

/// The state after a start failed to bind: back to `Stopped` if that start
/// was the pending one.
pub open spec fn failed_step(m: LifecycleManager, generation: u64) -> LifecycleManager {
    if is_starting(m.phase, generation) {
        LifecycleManager { phase: Phase::Stopped, next_generation: m.next_generation }
    } else {
        m
    }
}

/// The state after a server's transport ended by itself: `Stopped` if that
/// server is the running one.
pub open spec fn terminated_step(m: LifecycleManager, generation: u64) -> LifecycleManager {
    if is_running_as(m.phase, generation) {
        LifecycleManager { phase: Phase::Stopped, next_generation: m.next_generation }
    } else {
        m
    }
}

/// The state after `stop` and its result: only a running server stops.
pub open spec fn stop_step(m: LifecycleManager) -> (LifecycleManager, Result<(), LifecycleError>) {
    if m.phase is Running {
        (LifecycleManager { phase: Phase::Stopped, next_generation: m.next_generation }, Ok(()))
    } else {
        (m, Err(LifecycleError::NotRunning))
    }
}

/// The status reported for a state: running, and where, only once bound.
pub open spec fn status_matches(status: ServerStatus, m: LifecycleManager) -> bool {
    &&& status.running == (m.phase is Running)
    &&& match m.phase {
        Phase::Running { handle } => status.address matches Some(a) && a.host@
            == handle.addr.host@ && a.port == handle.addr.port,
        _ => status.address is None,
    }
}

/// A second start, while the first is still binding or once its server runs,
/// is refused with `AlreadyRunning` and changes nothing: the first server
/// keeps its address.
pub proof fn lemma_start_twice(
    m: LifecycleManager,
    first: McpServerConfig,
    second: McpServerConfig,
    addr: ServerAddress,
    shutdown: CancellationToken,
)
    requires
        start_step(m, first).1 is Ok,
    ensures
        ({
            let starting = start_step(m, first).0;
            let generation = start_step(m, first).1->Ok_0;
            let running = bound_step(starting, generation, addr, shutdown).0;
            &&& start_step(starting, second) == (starting, Err::<u64, LifecycleError>(
                LifecycleError::AlreadyRunning,
            ))
            &&& bound_step(starting, generation, addr, shutdown).1
            &&& start_step(running, second) == (running, Err::<u64, LifecycleError>(
                LifecycleError::AlreadyRunning,
            ))
            &&& running.phase matches Phase::Running { handle } && handle.addr == addr
        }),
{
}

/// `stop` without a running server is refused with `NotRunning` and changes
/// nothing.
pub proof fn lemma_stop_when_not_running(m: LifecycleManager)
    requires
        !(m.phase is Running),
    ensures
        stop_step(m) == (m, Err::<(), LifecycleError>(LifecycleError::NotRunning)),
{
}

/// After a successful `stop` the status reports no running server and no
/// address.
pub proof fn lemma_status_after_stop(m: LifecycleManager, status: ServerStatus)
    requires
        stop_step(m).1 is Ok,
        status_matches(status, stop_step(m).0),
    ensures
        !status.running,
        status.address is None,
{
}

impl LifecycleManager {
    pub fn new() -> (r: LifecycleManager)
        ensures
            r.phase is Stopped,
    {
        LifecycleManager { phase: Phase::Stopped, next_generation: 0 }
    }

    /// Admits a start; the check and the change happen in one step.
    pub fn start(&mut self, config: &McpServerConfig) -> (r: Result<StartTicket, LifecycleError>)
        ensures
            *final(self) == start_step(*old(self), *config).0,
            match (r, start_step(*old(self), *config).1) {
                (Ok(ticket), Ok(generation)) => {
                    &&& ticket.generation == generation
                    &&& ticket.addr.host@ == config.host@
                    &&& ticket.addr.port == config.port
                    &&& ticket.permissions.allow_query == config.allow_query
                    &&& ticket.permissions.allow_create == config.allow_create
                    &&& ticket.permissions.allow_update == config.allow_update
                    &&& ticket.permissions.allow_delete == config.allow_delete
                },
                (Err(e), Err(f)) => e == f,
                _ => false,
            },
    {
        match self.phase {
            Phase::Stopped => {},
            _ => {
                return Err(LifecycleError::AlreadyRunning);
            },
        }
        if config.port == 0 {
            return Err(LifecycleError::InvalidPort);
        }
        let generation = self.next_generation;
        self.phase = Phase::Starting { generation };
        self.next_generation = if generation == u64::MAX {
            0
        } else {
            generation + 1
        };
        Ok(
            StartTicket {
                generation,
                addr: ServerAddress { host: config.host.clone(), port: config.port },
                permissions: config.permissions(),
            },
        )
    }

    /// Records the bound listener of a start. `false` means that start is no
    /// longer pending: its server must be shut down again.
    pub fn bound(&mut self, generation: u64, addr: ServerAddress, shutdown: CancellationToken) -> (r:
        bool)
        ensures
            (*final(self), r) == bound_step(*old(self), generation, addr, shutdown),
    {
        let pending = match self.phase {
            Phase::Starting { generation: g } => g == generation,
            _ => false,
        };
        if pending {
            self.phase = Phase::Running {
                handle: ServerHandle { generation, addr, shutdown: Shutdown::new(shutdown) },
            };
            true
        } else {
            false
        }
    }

    /// Records that a start could not bind its listener.
    pub fn start_failed(&mut self, generation: u64)
        ensures
            *final(self) == failed_step(*old(self), generation),
    {
        let pending = match self.phase {
            Phase::Starting { generation: g } => g == generation,
            _ => false,
        };
        if pending {
            self.phase = Phase::Stopped;
        }
    }

    /// Records that a server's transport ended without `stop`.
    pub fn terminated(&mut self, generation: u64)
        ensures
            *final(self) == terminated_step(*old(self), generation),
    {
        let current = match &self.phase {
            Phase::Running { handle } => handle.generation == generation,
            _ => false,
        };
        if current {
            self.phase = Phase::Stopped;
        }
    }

    /// Signals the running server to shut down, clears its handle and hands
    /// the signalled handle back.
    pub fn stop(&mut self) -> (r: Result<ServerHandle, LifecycleError>)
        ensures
            *final(self) == stop_step(*old(self)).0,
            r is Ok <==> stop_step(*old(self)).1 is Ok,
            r matches Err(e) ==> e is NotRunning,
            r matches Ok(h) ==> old(self).phase matches Phase::Running { handle } && {
                &&& h.generation == handle.generation
                &&& h.addr == handle.addr
                &&& h.shutdown.token == handle.shutdown.token
                &&& h.shutdown.signalled@
            },
    {
        let mut was = Phase::Stopped;
        std::mem::swap(&mut self.phase, &mut was);
        match was {
            Phase::Running { mut handle } => {
                signal_shutdown(&mut handle.shutdown);
                Ok(handle)
            },
            other => {
                self.phase = other;
                Err(LifecycleError::NotRunning)
            },
        }
    }

    /// Whether a server runs, and its address.
    pub fn status(&self) -> (r: ServerStatus)
        ensures
            status_matches(r, *self),
    {
        match &self.phase {
            Phase::Running { handle } => ServerStatus {
                running: true,
                address: Some(handle.addr.copied()),
            },
            _ => ServerStatus { running: false, address: None },
        }
    }
}

} // verus!
