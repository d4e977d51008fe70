//! The lifecycle of one server instance, as a state machine.
//!
//! The machine decides; its caller acts. The caller binds sockets, accepts
//! connections and waits for requests to finish, reports each of these as an
//! event, and carries out the action that the machine answers with.

use crate::authentication::RequestContext;
use crate::registry::AppState;
use crate::server::{handle_request, response_for, Response};
use vstd::prelude::*;

verus! {

/// An IPv4 address and a port to listen on. `host` holds the four octets of
/// the address, the first in its highest byte.
#[derive(Debug, Clone, Copy, PartialEq, Eq, Structural)]
pub struct BindAddress {
    pub host: u32,
    pub port: u16,
}

/// Where a server instance stands. An instance moves forward only:
/// `Idle`, `Starting`, `Running`, `Stopping`, `Stopped`.
#[derive(Debug, Clone, Copy, PartialEq, Eq, Structural)]
pub enum Phase {
    Idle,
    Starting,
    Running,
    Stopping,
    Stopped,
}

/// What the caller reports to the machine.
#[derive(Debug, Clone, Copy, PartialEq, Eq, Structural)]
pub enum Event {
    /// The operator asks for the server to start.
    Start,
    /// The address was bound.
    BindSucceeded,
    /// The address could not be bound.
    BindFailed,
    /// A connection arrived at the listener.
    ConnectionArrived,
    /// A dispatched request ran to completion.
    RequestFinished,
    /// The operator asks for the server to stop.
    Stop,
    /// The wait for in-flight requests ran out.
    DrainExpired,
}

/// What the machine asks of the caller.
#[derive(Debug, Clone, Copy, PartialEq, Eq, Structural)]
pub enum Action {
    /// Bind the address, and report how it went.
    Bind,
    /// Begin to accept connections.
    Serve,
    /// Hand the connection to the request pipeline.
    Dispatch,
    /// Turn the connection away.
    Refuse,
    /// Nothing to do.
    Continue,
    /// Close the listener and let the requests in flight finish.
    Drain,
    /// Release the address and return control. `abandoned` counts the
    /// requests that were still in flight; it is 0 after a full drain.
    Release { abandoned: u64 },
}

/// Why the machine refused an event.
#[derive(Debug, Clone, Copy, PartialEq, Eq, Structural)]
pub enum LifecycleError {
    /// A start was asked of an instance that is starting or running, or for
    /// an address that such an instance holds.
    AlreadyRunning,
    /// The address could not be bound.
    BindError,
    /// A stop was asked of an instance that is not running.
    NotRunning,
    /// A start was asked of an instance whose run is over.
    Stopped,
    /// The event does not belong to the phase.
    Unexpected,
    /// No instance has the given number.
    UnknownHandle,
}

/// What a `ServerHandle` stands for.
pub struct HandleView {
    pub address: BindAddress,
    pub registry: Map<Seq<char>, Seq<char>>,
    pub phase: Phase,
    pub in_flight: u64,
}

impl HandleView {
    /// Requests are in flight only while the instance runs or drains, and an
    /// instance drains only while some are.
    pub open spec fn wf(self) -> bool {
        &&& self.in_flight > 0 ==> self.phase == Phase::Running || self.phase == Phase::Stopping
        &&& self.phase == Phase::Stopping ==> self.in_flight > 0
    }

    /// Whether the instance holds its address: from the moment it starts until
    /// its drain is over.
    pub open spec fn holds_address(self) -> bool {
        self.phase == Phase::Starting || self.phase == Phase::Running || self.phase
            == Phase::Stopping
    }

    /// The same instance in another phase, with another count of requests in
    /// flight.
    pub open spec fn moved(self, phase: Phase, in_flight: u64) -> HandleView {
        HandleView { address: self.address, registry: self.registry, phase, in_flight }
    }
}

/// The transition of the machine: the instance after `event`, and the answer
/// to the caller.
///
/// A start moves an idle instance to `Starting`; the outcome of the bind
/// moves it on to `Running` or ends its run. A running instance dispatches
/// each connection that arrives, unless its count of requests in flight is at
/// the limit of the counter; in every other phase a connection is refused. A
/// stop closes the listener: with nothing in flight the instance is stopped
/// at once, otherwise it drains until the last request has finished or the
/// wait runs out. An event that does not belong to the phase is refused and
/// leaves the instance as it was.
pub open spec fn next(h: HandleView, event: Event) -> (HandleView, Result<Action, LifecycleError>) {
    match event {
        Event::Start => match h.phase {
            Phase::Idle => (h.moved(Phase::Starting, h.in_flight), Ok(Action::Bind)),
            Phase::Starting | Phase::Running => (h, Err(LifecycleError::AlreadyRunning)),
            Phase::Stopping | Phase::Stopped => (h, Err(LifecycleError::Stopped)),
        },
        Event::BindSucceeded => match h.phase {
            Phase::Starting => (h.moved(Phase::Running, h.in_flight), Ok(Action::Serve)),
            _ => (h, Err(LifecycleError::Unexpected)),
        },
        Event::BindFailed => match h.phase {
            Phase::Starting => (h.moved(Phase::Stopped, h.in_flight), Err(
                LifecycleError::BindError,
            )),
            _ => (h, Err(LifecycleError::Unexpected)),
        },
        Event::ConnectionArrived => if h.phase == Phase::Running && h.in_flight < u64::MAX {
            (h.moved(Phase::Running, (h.in_flight + 1) as u64), Ok(Action::Dispatch))
        } else {
            (h, Ok(Action::Refuse))
        },
        Event::RequestFinished => match h.phase {
            Phase::Running if h.in_flight > 0 => (
                h.moved(Phase::Running, (h.in_flight - 1) as u64),
                Ok(Action::Continue),
            ),
            Phase::Stopping if h.in_flight > 1 => (
                h.moved(Phase::Stopping, (h.in_flight - 1) as u64),
                Ok(Action::Continue),
            ),
            Phase::Stopping => (h.moved(Phase::Stopped, 0), Ok(Action::Release { abandoned: 0 })),
            _ => (h, Err(LifecycleError::Unexpected)),
        },
        Event::Stop => match h.phase {
            Phase::Running if h.in_flight > 0 => (h.moved(Phase::Stopping, h.in_flight), Ok(
                Action::Drain,
            )),
            Phase::Running => (h.moved(Phase::Stopped, 0), Ok(Action::Release { abandoned: 0 })),
            _ => (h, Err(LifecycleError::NotRunning)),
        },
        Event::DrainExpired => match h.phase {
            Phase::Stopping => (
                h.moved(Phase::Stopped, 0),
                Ok(Action::Release { abandoned: h.in_flight }),
            ),
            _ => (h, Err(LifecycleError::Unexpected)),
        },
    }
}

/// One server instance: the address it listens on, the registry it owns for
/// its run, its phase, and the number of requests in flight.
pub struct ServerHandle {
    address: BindAddress,
    registry: AppState,
    phase: Phase,
    in_flight: u64,
}

impl View for ServerHandle {
    type V = HandleView;

    closed spec fn view(&self) -> HandleView {
        HandleView {
            address: self.address,
            registry: self.registry@,
            phase: self.phase,
            in_flight: self.in_flight,
        }
    }
}

impl ServerHandle {
    /// A fresh instance for `address`, idle, with `registry` for its run.
    pub fn new(address: BindAddress, registry: AppState) -> (handle: ServerHandle)
        ensures
            handle@ == (HandleView {
                address,
                registry: registry@,
                phase: Phase::Idle,
                in_flight: 0,
            }),
            handle@.wf(),
    {
        ServerHandle { address, registry, phase: Phase::Idle, in_flight: 0 }
    }

    /// The address of the instance.
    pub fn address(&self) -> (address: BindAddress)
        ensures
            address == self@.address,
    {
        self.address
    }

    /// The phase of the instance.
    pub fn phase(&self) -> (phase: Phase)
        ensures
            phase == self@.phase,
    {
        self.phase
    }

    /// The number of requests in flight.
    pub fn in_flight(&self) -> (count: u64)
        ensures
            count == self@.in_flight,
    {
        self.in_flight
    }

    /// The registry of this run.
    pub fn registry(&self) -> (registry: &AppState)
        ensures
            registry@ == self@.registry,
    {
        &self.registry
    }

    /// Takes one event: moves the instance as `next` says, and answers with
    /// the action to carry out or the reason for refusing. Address and
    /// registry never change.
    pub fn step(&mut self, event: Event) -> (answer: Result<Action, LifecycleError>)
        ensures
            (final(self)@, answer) == next(old(self)@, event),
            final(self)@.address == old(self)@.address,
            final(self)@.registry == old(self)@.registry,
            old(self)@.wf() ==> final(self)@.wf(),
    {
        match event {
            Event::Start => match self.phase {
                Phase::Idle => {
                    self.phase = Phase::Starting;
                    Ok(Action::Bind)
                },
                Phase::Starting | Phase::Running => Err(LifecycleError::AlreadyRunning),
                Phase::Stopping | Phase::Stopped => Err(LifecycleError::Stopped),
            },
            Event::BindSucceeded => match self.phase {
                Phase::Starting => {
                    self.phase = Phase::Running;
                    Ok(Action::Serve)
                },
                _ => Err(LifecycleError::Unexpected),
            },
            Event::BindFailed => match self.phase {
                Phase::Starting => {
                    self.phase = Phase::Stopped;
                    Err(LifecycleError::BindError)
                },
                _ => Err(LifecycleError::Unexpected),
            },
            Event::ConnectionArrived => {
                if self.phase == Phase::Running && self.in_flight < u64::MAX {
                    self.in_flight = self.in_flight + 1;
                    Ok(Action::Dispatch)
                } else {
                    Ok(Action::Refuse)
                }
            },
            Event::RequestFinished => match self.phase {
                Phase::Running => {
                    if self.in_flight > 0 {
                        self.in_flight = self.in_flight - 1;
                        Ok(Action::Continue)
                    } else {
                        Err(LifecycleError::Unexpected)
                    }
                },
                Phase::Stopping => {
                    if self.in_flight > 1 {
                        self.in_flight = self.in_flight - 1;
                        Ok(Action::Continue)
                    } else {
                        self.phase = Phase::Stopped;
                        self.in_flight = 0;
                        Ok(Action::Release { abandoned: 0 })
                    }
                },
                _ => Err(LifecycleError::Unexpected),
            },
            Event::Stop => match self.phase {
                Phase::Running => {
                    if self.in_flight > 0 {
                        self.phase = Phase::Stopping;
                        Ok(Action::Drain)
                    } else {
                        self.phase = Phase::Stopped;
                        Ok(Action::Release { abandoned: 0 })
                    }
                },
                _ => Err(LifecycleError::NotRunning),
            },
            Event::DrainExpired => match self.phase {
                Phase::Stopping => {
                    let abandoned: u64 = self.in_flight;
                    self.phase = Phase::Stopped;
                    self.in_flight = 0;
                    Ok(Action::Release { abandoned })
                },
                _ => Err(LifecycleError::Unexpected),
            },
        }
    }

    /// Serves one dispatched request with the registry of this run. The
    /// answer depends on the registry and the request alone, not on the phase:
    /// a request in flight during a drain is answered as it would have been
    /// before the stop.
    pub fn serve(&self, req: RequestContext) -> (resp: Response)
        ensures
            resp@ == response_for(self@.registry, req@.authorization),
    {
        handle_request(&self.registry, req)
    }
}

/// The instance after a run of events, taken in order.
pub open spec fn run(h: HandleView, events: Seq<Event>) -> HandleView
    decreases events.len(),
{
    if events.len() == 0 {
        h
    } else {
        next(run(h, events.drop_last()), events.last()).0
    }
}

/// How many of the events report a finished request.
pub open spec fn finished(events: Seq<Event>) -> nat
    decreases events.len(),
{
    if events.len() == 0 {
        0
    } else if events.last() == Event::RequestFinished {
        finished(events.drop_last()) + 1
    } else {
        finished(events.drop_last())
    }
}

/// The place of a phase in the order of the lifecycle.
pub open spec fn rank(phase: Phase) -> nat {
    match phase {
        Phase::Idle => 0,
        Phase::Starting => 1,
        Phase::Running => 2,
        Phase::Stopping => 3,
        Phase::Stopped => 4,
    }
}

/// Every event leaves a well-formed instance well-formed, with the address
/// and the registry it had, and never moves it back to an earlier phase. An
/// instance that has stopped stays as it is.
pub proof fn lemma_step_moves_forward(h: HandleView, event: Event)
    requires
        h.wf(),
    ensures
        next(h, event).0.wf(),
        next(h, event).0.address == h.address,
        next(h, event).0.registry == h.registry,
        rank(next(h, event).0.phase) >= rank(h.phase),
        h.phase == Phase::Stopped ==> next(h, event).0 == h,
{
}

/// Once a stop has been asked for, no connection is accepted any more:
/// whatever events follow, the instance stays stopping or stopped, the number
/// of requests in flight never grows, and an arriving connection is refused.
pub proof fn lemma_no_connection_after_stop(h: HandleView, events: Seq<Event>)
    requires
        h.phase == Phase::Stopping || h.phase == Phase::Stopped,
    ensures
        run(h, events).phase == Phase::Stopping || run(h, events).phase == Phase::Stopped,
        run(h, events).in_flight <= h.in_flight,
        run(h, events).address == h.address,
        run(h, events).registry == h.registry,
        next(run(h, events), Event::ConnectionArrived) == (
            run(h, events),
            Ok::<Action, LifecycleError>(Action::Refuse),
        ),
    decreases events.len(),
{
    if events.len() > 0 {
        lemma_no_connection_after_stop(h, events.drop_last());
    }
}

/// A stop lets every request in flight finish before the address is released.
/// Take a running instance with `n` requests in flight, stop it, and let any
/// events follow in which the wait does not run out. As long as fewer than
/// `n` of them report a finished request, the instance is draining, still
/// holds its address, and counts the requests that are left. From the `n`th
/// such report on it is stopped, with none in flight. At no point after the
/// stop is an arriving connection dispatched, and the registry that answers
/// the requests in flight is the one they were accepted under.
pub proof fn lemma_stop_drains_all(h: HandleView, events: Seq<Event>)
    requires
        h.wf(),
        h.phase == Phase::Running,
        forall|i: int| 0 <= i < events.len() ==> events[i] != Event::DrainExpired,
    ensures
        finished(events) < h.in_flight ==> run(next(h, Event::Stop).0, events) == h.moved(
            Phase::Stopping,
            (h.in_flight - finished(events)) as u64,
        ),
        finished(events) < h.in_flight ==> run(next(h, Event::Stop).0, events).holds_address(),
        finished(events) >= h.in_flight ==> run(next(h, Event::Stop).0, events) == h.moved(
            Phase::Stopped,
            0,
        ),
        run(next(h, Event::Stop).0, events).registry == h.registry,
        next(run(next(h, Event::Stop).0, events), Event::ConnectionArrived).1 == Ok::<
            Action,
            LifecycleError,
        >(Action::Refuse),
    decreases events.len(),
{
    lemma_no_connection_after_stop(next(h, Event::Stop).0, events);
    if events.len() > 0 {
        lemma_stop_drains_all(h, events.drop_last());
    }
}

} // verus!
