//! The signal registry and its three operations: bind, poll, unbind.
//!
//! A bound resource pairs the signal number it observes with a slot for the
//! wake handle of a task suspended in a poll on it. The registry hands out
//! integer identifiers and never reuses one: slot `i` holds the resource with
//! identifier `i`, or nothing once that identifier has been unbound.

use vstd::prelude::*;

verus! {

/// Why an operation failed.
#[derive(Clone, Copy, Debug, PartialEq, Eq, Structural)]
pub enum SignalError {
    /// Bind: the platform refused the signal number or could not establish
    /// the subscription.
    SubscriptionError,
    /// Poll: the identifier does not name a live signal resource.
    InvalidResource,
    /// Unbind: the identifier does not name a live signal resource.
    UnknownResource,
}

/// What the OS subscription reported when it was consulted during a poll.
#[derive(Clone, Copy, Debug, PartialEq, Eq, Structural)]
pub enum SubscriptionStatus {
    /// A signal delivery is available now.
    Delivered,
    /// The stream is exhausted: no further delivery will come.
    Ended,
    /// No delivery is available yet.
    NotReady,
}

/// What one poll invocation decided.
#[derive(Clone, Copy, Debug, PartialEq, Eq, Structural)]
pub enum PollStep {
    /// The poll resolves now; `delivered` tells whether a signal arrived
    /// (`false` means the subscription ended or the resource was unbound).
    Resolved { delivered: bool },
    /// No event yet: the task parks until the stored wake handle is invoked.
    Suspend,
}

/// `std::task::Waker`, opaque to the verifier: a capability that reschedules
/// the task it belongs to when invoked.
#[verifier::external_type_specification]
#[verifier::external_body]
pub struct ExWaker(std::task::Waker);

/// Relies on `std::task::Waker::wake`: wakes the task bound to this waker,
/// consuming the handle. It returns nothing and reads or writes no state of
/// this library.
pub assume_specification[ std::task::Waker::wake ](w: std::task::Waker);

/// One live signal subscription: the signal number it observes and, while a
/// poll is suspended on it, that task's wake handle.
pub struct SignalStreamResource {
    /// The platform-defined number of the observed signal.
    pub signo: i32,
    /// The wake handle of the task currently suspended in a poll on this
    /// resource, or `None` while no poll is outstanding.
    pub waker: Option<std::task::Waker>,
}

/// Ghost image of one resource: the signal number and the stored wake
/// handle, if any. The handle itself is opaque, but the model keeps its
/// identity, so the contracts can say which handle a poll stored and which
/// one an unbind surrenders.
pub ghost struct ResourceModel {
    pub signo: int,
    pub waker: Option<std::task::Waker>,
}

impl View for SignalStreamResource {
    type V = ResourceModel;

    open spec fn view(&self) -> ResourceModel {
        ResourceModel { signo: self.signo as int, waker: self.waker }
    }
}

/// The registry as the contracts see it: one slot per identifier ever handed
/// out, `None` where the identifier has been unbound.
pub type RegistryModel = Seq<Option<ResourceModel>>;

/// Whether `id` names a live resource of `s`.
pub open spec fn live(s: RegistryModel, id: int) -> bool {
    0 <= id < s.len() && s[id] is Some
}

/// The registry after a bind of `signo`: on a successful subscription a new
/// resource with no stored waker is appended under the fresh identifier
/// `s.len()`; on a refused subscription nothing is registered.
pub open spec fn bind_state(s: RegistryModel, signo: int, subscribed: bool) -> RegistryModel {
    if subscribed {
        s.push(Some(ResourceModel { signo, waker: None }))
    } else {
        s
    }
}

/// What one poll invocation on `id` returns. `initial` tells a fresh poll
/// call from the resumption of one that already suspended; `status` is what
/// the OS subscription reported, consulted only while the resource is live.
pub open spec fn poll_result(
    s: RegistryModel,
    id: int,
    initial: bool,
    status: Option<SubscriptionStatus>,
) -> Result<PollStep, SignalError>
    recommends
        live(s, id) ==> status is Some,
{
    if !live(s, id) {
        if initial {
            Err(SignalError::InvalidResource)
        } else {
            Ok(PollStep::Resolved { delivered: false })
        }
    } else {
        match status {
            Some(SubscriptionStatus::Delivered) => Ok(PollStep::Resolved { delivered: true }),
            Some(SubscriptionStatus::Ended) => Ok(PollStep::Resolved { delivered: false }),
            _ => Ok(PollStep::Suspend),
        }
    }
}

/// The registry after one poll invocation on `id`: a live resource keeps its
/// signal number and holds exactly the polling task's own handle `waker`
/// when the poll suspends, no handle otherwise; a dead identifier leaves the
/// registry unchanged.
pub open spec fn poll_state(
    s: RegistryModel,
    id: int,
    waker: std::task::Waker,
    status: Option<SubscriptionStatus>,
) -> RegistryModel
    recommends
        live(s, id) ==> status is Some,
{
    if live(s, id) {
        s.update(
            id,
            Some(
                ResourceModel {
                    signo: s[id].unwrap().signo,
                    waker: if poll_result(s, id, true, status) == Ok::<PollStep, SignalError>(
                        PollStep::Suspend,
                    ) {
                        Some(waker)
                    } else {
                        None
                    },
                },
            ),
        )
    } else {
        s
    }
}

/// What an unbind of `id` returns: it succeeds exactly when `id` is live.
pub open spec fn unbind_result(s: RegistryModel, id: int) -> Result<(), SignalError> {
    if live(s, id) {
        Ok(())
    } else {
        Err(SignalError::UnknownResource)
    }
}

/// The registry after an unbind of `id`: a live resource is removed and its
/// identifier stays retired forever; otherwise nothing changes.
pub open spec fn unbind_state(s: RegistryModel, id: int) -> RegistryModel {
    if live(s, id) {
        s.update(id, None)
    } else {
        s
    }
}

/// The wake handle an unbind of `id` surrenders for waking: the one stored
/// in the live resource, if a poll is suspended on it; none otherwise.
pub open spec fn unbind_waker(s: RegistryModel, id: int) -> Option<std::task::Waker> {
    if live(s, id) {
        s[id].unwrap().waker
    } else {
        None
    }
}

/// The signal registry.
pub struct SignalManager {
    slots: Vec<Option<SignalStreamResource>>,
}

impl View for SignalManager {
    type V = RegistryModel;

    closed spec fn view(&self) -> RegistryModel {
        Seq::new(
            self.slots@.len(),
            |i: int|
                match self.slots@[i] {
                    Some(r) => Some(r@),
                    None => None,
                },
        )
    }
}

/// Create an empty signal registry: no identifier handed out yet.
pub fn init() -> (m: SignalManager)
    ensures
        m@ == Seq::<Option<ResourceModel>>::empty(),
{
    let m = SignalManager { slots: Vec::new() };
    proof {
        assert(m@ =~= Seq::<Option<ResourceModel>>::empty());
    }
    m
}

impl SignalManager {
    /// Whether `id` currently names a live resource.
    pub fn is_live(&self, id: u32) -> (r: bool)
        ensures
            r == live(self@, id as int),
    {
        let i: usize = id as usize;
        i < self.slots.len() && self.slots[i].is_some()
    }

    /// The identifier the next successful bind will return: one has been
    /// handed out for each slot, so the next is the slot count.
    pub fn next_id(&self) -> (r: usize)
        ensures
            r == self@.len(),
    {
        self.slots.len()
    }

    /// Bind: register a subscription to signal `signo` under a fresh
    /// identifier, never handed out before. `subscribed` reports whether the
    /// platform accepted the OS-level subscription; on refusal the bind fails
    /// with `SubscriptionError` and registers nothing.
    pub fn op_signal_bind(&mut self, signo: i32, subscribed: bool) -> (r: Result<
        u32,
        SignalError,
    >)
        requires
            subscribed ==> old(self)@.len() < u32::MAX,
        ensures
            final(self)@ == bind_state(old(self)@, signo as int, subscribed),
            subscribed ==> r is Ok && r.unwrap() == old(self)@.len() && !live(
                old(self)@,
                r.unwrap() as int,
            ) && live(final(self)@, r.unwrap() as int),
            !subscribed ==> r == Err::<u32, SignalError>(SignalError::SubscriptionError),
    {
        if !subscribed {
            return Err(SignalError::SubscriptionError);
        }
        let id: u32 = self.slots.len() as u32;
        self.slots.push(Some(SignalStreamResource { signo, waker: None }));
        proof {
            assert(self@ =~= bind_state(old(self)@, signo as int, true));
        }
        Ok(id)
    }

    /// Poll: one invocation of the poll body on `id`, whether the first on a
    /// fresh poll call (`initial`) or the resumption of one that suspended.
    /// `status` is what the OS subscription reported and must be supplied
    /// exactly while the resource is live; `waker` is the polling task's wake
    /// handle, stored in the resource exactly when the poll suspends.
    ///
    /// A fresh poll on a dead identifier fails with `InvalidResource`; a
    /// resumed poll that finds its resource gone resolves with
    /// `delivered = false` instead of suspending again.
    pub fn op_signal_poll(
        &mut self,
        id: u32,
        initial: bool,
        waker: std::task::Waker,
        status: Option<SubscriptionStatus>,
    ) -> (r: Result<PollStep, SignalError>)
        requires
            live(old(self)@, id as int) ==> status is Some,
        ensures
            r == poll_result(old(self)@, id as int, initial, status),
            final(self)@ == poll_state(old(self)@, id as int, waker, status),
    {
        let i: usize = id as usize;
        if i >= self.slots.len() || self.slots[i].is_none() {
            if initial {
                return Err(SignalError::InvalidResource);
            }
            return Ok(PollStep::Resolved { delivered: false });
        }
        let signo: i32 = self.slots[i].as_ref().unwrap().signo;
        let (stored, r): (Option<std::task::Waker>, Result<PollStep, SignalError>) = match status {
            Some(SubscriptionStatus::Delivered) => (None, Ok(PollStep::Resolved { delivered: true })),
            Some(SubscriptionStatus::Ended) => (None, Ok(PollStep::Resolved { delivered: false })),
            _ => (Some(waker), Ok(PollStep::Suspend)),
        };
        self.slots[i] = Some(SignalStreamResource { signo, waker: stored });
        proof {
            assert(self@ =~= poll_state(old(self)@, id as int, waker, status));
        }
        r
    }

    /// Remove the resource under `id`, retiring the identifier, and
    /// surrender the wake handle of any task suspended in a poll on it: the
    /// contract pins the surrendered handle to exactly the one the resource
    /// held, so it cannot be dropped silently. The caller owes that task a
    /// wake — `op_signal_unbind` pays the debt at once; a caller that parks
    /// the handle anywhere but a wake call strands the task. Fails with
    /// `UnknownResource` when `id` is not live, so a second unbind of the
    /// same identifier is rejected rather than silently accepted.
    pub fn unbind_take_waker(&mut self, id: u32) -> (r: (
        Result<(), SignalError>,
        Option<std::task::Waker>,
    ))
        ensures
            r.0 == unbind_result(old(self)@, id as int),
            r.1 == unbind_waker(old(self)@, id as int),
            final(self)@ == unbind_state(old(self)@, id as int),
    {
        let i: usize = id as usize;
        if i >= self.slots.len() || self.slots[i].is_none() {
            return (Err(SignalError::UnknownResource), None);
        }
        let slot: Option<SignalStreamResource> = self.slots[i].take();
        let waker: Option<std::task::Waker> = match slot {
            Some(resource) => resource.waker,
            None => None,
        };
        proof {
            assert(self@ =~= unbind_state(old(self)@, id as int));
        }
        (Ok(()), waker)
    }

    /// Unbind: remove the resource under `id`, retiring the identifier, and
    /// invoke the wake handle of any task suspended in a poll on it, so that
    /// the task resumes and, finding the resource gone, resolves with no
    /// further events instead of staying parked forever. The resumed poll
    /// re-checks the registry, so waking after the removal is sound. Fails
    /// with `UnknownResource` when `id` is not live, so a second unbind of
    /// the same identifier is rejected rather than silently accepted.
    pub fn op_signal_unbind(&mut self, id: u32) -> (r: Result<(), SignalError>)
        ensures
            r == unbind_result(old(self)@, id as int),
            final(self)@ == unbind_state(old(self)@, id as int),
    {
        let (r, waker) = self.unbind_take_waker(id);
        match waker {
            Some(w) => w.wake(),
            None => {},
        }
        r
    }
}

} // verus!
