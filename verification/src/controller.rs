//! The controller of server instances: it starts them, passes events to
//! them, and sees to it that no two of them hold one address at a time.

use crate::lifecycle::{
    lemma_step_moves_forward, next, Action, BindAddress, Event, HandleView, LifecycleError, Phase,
    ServerHandle,
};
use crate::registry::AppState;
use vstd::prelude::*;

verus! {

/// The instances that a controller has started, by number.
pub struct LifecycleController {
    servers: Vec<ServerHandle>,
}

impl View for LifecycleController {
    type V = Seq<HandleView>;

    closed spec fn view(&self) -> Seq<HandleView> {
        Seq::new(self.servers.len() as nat, |i: int| self.servers[i]@)
    }
}

/// Whether an instance that is starting or running has `address`.
pub open spec fn serving_at(servers: Seq<HandleView>, address: BindAddress) -> bool {
    exists|i: int|
        0 <= i < servers.len() && (#[trigger] servers[i]).address == address && (servers[i].phase
            == Phase::Starting || servers[i].phase == Phase::Running)
}

/// Whether an instance that is draining has `address`.
pub open spec fn draining_at(servers: Seq<HandleView>, address: BindAddress) -> bool {
    exists|i: int|
        0 <= i < servers.len() && (#[trigger] servers[i]).address == address && servers[i].phase
            == Phase::Stopping
}

/// Why a start for `address` is refused, if it is: the address belongs to an
/// instance that is starting or running, or it has not been released yet by
/// one that is draining.
pub open spec fn start_refusal(servers: Seq<HandleView>, address: BindAddress) -> Option<
    LifecycleError,
> {
    if serving_at(servers, address) {
        Some(LifecycleError::AlreadyRunning)
    } else if draining_at(servers, address) {
        Some(LifecycleError::BindError)
    } else {
        None
    }
}

/// The instances are well-formed, none is idle, and no two of them hold the
/// same address at a time.
pub open spec fn exclusive(servers: Seq<HandleView>) -> bool {
    &&& forall|i: int|
        0 <= i < servers.len() ==> (#[trigger] servers[i]).wf() && servers[i].phase != Phase::Idle
    &&& forall|i: int, j: int|
        0 <= i < j < servers.len() && (#[trigger] servers[i]).holds_address() && (
        #[trigger] servers[j]).holds_address() ==> servers[i].address != servers[j].address
}

/// A fresh instance for `address` that has been asked to start.
pub open spec fn starting(address: BindAddress, registry: Map<Seq<char>, Seq<char>>) -> HandleView {
    HandleView { address, registry, phase: Phase::Starting, in_flight: 0 }
}

impl LifecycleController {
    /// A controller with no instance.
    pub fn new() -> (controller: LifecycleController)
        ensures
            controller@ == Seq::<HandleView>::empty(),
            exclusive(controller@),
    {
        LifecycleController { servers: Vec::new() }
    }

    /// The number of instances started so far.
    pub fn len(&self) -> (count: usize)
        ensures
            count == self@.len(),
    {
        self.servers.len()
    }

    /// The instance with the given number.
    pub fn get(&self, id: usize) -> (handle: Option<&ServerHandle>)
        ensures
            match handle {
                Some(found) => id < self@.len() && found@ == self@[id as int],
                None => id >= self@.len(),
            },
    {
        if id < self.servers.len() {
            Some(&self.servers[id])
        } else {
            None
        }
    }

    /// Starts a fresh instance for `address`. The start is refused, and
    /// nothing changes, while another instance holds the address. Otherwise
    /// the instance is added in phase `Starting` and its number is returned:
    /// the caller binds the address and reports how it went.
    pub fn start(&mut self, address: BindAddress, registry: AppState) -> (started: Result<
        usize,
        LifecycleError,
    >)
        ensures
            match start_refusal(old(self)@, address) {
                Some(reason) => started == Err::<usize, LifecycleError>(reason) && final(self)@
                    == old(self)@,
                None => started == Ok::<usize, LifecycleError>(old(self)@.len() as usize)
                    && final(self)@ == old(self)@.push(starting(address, registry@)),
            },
            exclusive(old(self)@) ==> exclusive(final(self)@),
    {
        let mut serving = false;
        let mut draining = false;
        let mut i: usize = 0;
        while i < self.servers.len()
            invariant
                i <= self.servers.len(),
                *self == *old(self),
                serving == serving_at(self@.take(i as int), address),
                draining == draining_at(self@.take(i as int), address),
            decreases self.servers.len() - i,
        {
            let handle = &self.servers[i];
            assert(self@.take(i + 1)[i as int] == handle@);
            if handle.address() == address {
                match handle.phase() {
                    Phase::Starting | Phase::Running => {
                        serving = true;
                    },
                    Phase::Stopping => {
                        draining = true;
                    },
                    _ => {},
                }
            }
            i += 1;
        }
        assert(self@.take(i as int) =~= self@);
        if serving {
            Err(LifecycleError::AlreadyRunning)
        } else if draining {
            Err(LifecycleError::BindError)
        } else {
            let id: usize = self.servers.len();
            let mut handle = ServerHandle::new(address, registry);
            let _ = handle.step(Event::Start);
            self.servers.push(handle);
            Ok(id)
        }
    }

    /// Passes an event to the instance with the given number, and answers as
    /// the instance does. No other instance changes.
    pub fn signal(&mut self, id: usize, event: Event) -> (answer: Result<Action, LifecycleError>)
        ensures
            id >= old(self)@.len() ==> answer == Err::<Action, LifecycleError>(
                LifecycleError::UnknownHandle,
            ) && final(self)@ == old(self)@,
            id < old(self)@.len() ==> answer == next(old(self)@[id as int], event).1 && final(self)@
                == old(self)@.update(id as int, next(old(self)@[id as int], event).0),
            exclusive(old(self)@) ==> exclusive(final(self)@),
    {
        if id >= self.servers.len() {
            return Err(LifecycleError::UnknownHandle);
        }
        let answer = self.servers[id].step(event);
        proof {
            if exclusive(old(self)@) {
                lemma_signal_keeps_exclusive(old(self)@, id as int, event);
            }
        }
        answer
    }
}

/// An event to one instance never makes two instances hold one address.
pub proof fn lemma_signal_keeps_exclusive(servers: Seq<HandleView>, id: int, event: Event)
    requires
        exclusive(servers),
        0 <= id < servers.len(),
    ensures
        exclusive(servers.update(id, next(servers[id], event).0)),
{
    lemma_step_moves_forward(servers[id], event);
}

/// After a full stop the address can be used again. When the instance that
/// holds an address takes the event that ends its run, a start for that
/// address is no longer refused.
pub proof fn lemma_address_free_after_stop(servers: Seq<HandleView>, id: int, event: Event)
    requires
        exclusive(servers),
        0 <= id < servers.len(),
        servers[id].holds_address(),
        next(servers[id], event).0.phase == Phase::Stopped,
    ensures
        start_refusal(servers.update(id, next(servers[id], event).0), servers[id].address) is None,
{
}

} // verus!
