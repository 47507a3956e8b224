//! The lifecycle laws of the bind / poll / unbind protocol, stated over the
//! registry model that the operations' contracts use.

use vstd::prelude::*;

use crate::signal::bind_state;
use crate::signal::live;
use crate::signal::poll_result;
use crate::signal::poll_state;
use crate::signal::unbind_result;
use crate::signal::unbind_state;
use crate::signal::unbind_waker;
use crate::signal::PollStep;
use crate::signal::RegistryModel;
use crate::signal::ResourceModel;
use crate::signal::SignalError;
use crate::signal::SubscriptionStatus;

verus! {

/// A successful bind hands out the identifier `s.len()`: one that was never
/// live before, is live afterwards with no stored waker, and whose issue
/// leaves every previously issued identifier's slot untouched.
pub proof fn lemma_bind_gives_fresh_id(s: RegistryModel, signo: int)
    ensures
        ({
            let id = s.len() as int;
            let bound = bind_state(s, signo, true);
            &&& !live(s, id)
            &&& live(bound, id)
            &&& bound[id].unwrap() == (ResourceModel { signo, waker: None })
            &&& forall|j: int| 0 <= j < s.len() ==> bound[j] == s[j]
        }),
{
}

/// Lifecycle: after a bind and its matching unbind, the identifier is dead:
/// a fresh poll on it fails with `InvalidResource`, and a further unbind
/// fails with `UnknownResource`.
pub proof fn lemma_lifecycle_rejects_closed_id(s: RegistryModel, signo: int)
    ensures
        ({
            let id = s.len() as int;
            let bound = bind_state(s, signo, true);
            let closed = unbind_state(bound, id);
            &&& unbind_result(bound, id) == Ok::<(), SignalError>(())
            &&& !live(closed, id)
            &&& forall|status: Option<SubscriptionStatus>|
                poll_result(closed, id, true, status) == Err::<PollStep, SignalError>(
                    SignalError::InvalidResource,
                )
            &&& unbind_result(closed, id) == Err::<(), SignalError>(SignalError::UnknownResource)
        }),
{
}

/// No stuck task: a poll that suspends on a live identifier stores exactly
/// its task's wake handle; an unbind of that identifier then succeeds and
/// surrenders that very handle for waking, and the woken poll's next
/// invocation resolves with `delivered = false` rather than suspending
/// again.
pub proof fn lemma_unbind_resolves_pending_poll(s: RegistryModel, id: int, w: std::task::Waker)
    requires
        live(s, id),
    ensures
        ({
            let suspended = poll_state(s, id, w, Some(SubscriptionStatus::NotReady));
            let closed = unbind_state(suspended, id);
            &&& poll_result(s, id, true, Some(SubscriptionStatus::NotReady)) == Ok::<
                PollStep,
                SignalError,
            >(PollStep::Suspend)
            &&& suspended[id].unwrap().waker == Some(w)
            &&& unbind_result(suspended, id) == Ok::<(), SignalError>(())
            &&& unbind_waker(suspended, id) == Some(w)
            &&& poll_result(closed, id, false, None) == Ok::<PollStep, SignalError>(
                PollStep::Resolved { delivered: false },
            )
        }),
{
}

/// Delivery before poll: when a delivery is already available at the moment
/// a poll is invoked, the poll resolves at once with `delivered = true`, and
/// the resource stays live for the next poll.
pub proof fn lemma_delivery_before_poll(s: RegistryModel, id: int, initial: bool, w: std::task::Waker)
    requires
        live(s, id),
    ensures
        poll_result(s, id, initial, Some(SubscriptionStatus::Delivered)) == Ok::<
            PollStep,
            SignalError,
        >(PollStep::Resolved { delivered: true }),
        live(poll_state(s, id, w, Some(SubscriptionStatus::Delivered)), id),
{
}

/// Delivery after poll: a poll that suspended for want of an event resolves
/// with `delivered = true` when a delivery arrives before any unbind and the
/// stored waker resumes it.
pub proof fn lemma_delivery_after_poll(s: RegistryModel, id: int, w: std::task::Waker)
    requires
        live(s, id),
    ensures
        ({
            let suspended = poll_state(s, id, w, Some(SubscriptionStatus::NotReady));
            &&& poll_result(s, id, true, Some(SubscriptionStatus::NotReady)) == Ok::<
                PollStep,
                SignalError,
            >(PollStep::Suspend)
            &&& live(suspended, id)
            &&& poll_result(suspended, id, false, Some(SubscriptionStatus::Delivered)) == Ok::<
                PollStep,
                SignalError,
            >(PollStep::Resolved { delivered: true })
        }),
{
}

/// Idempotent close: unbind succeeds once on a live identifier; a second
/// unbind of the same identifier fails with `UnknownResource` and changes
/// nothing.
pub proof fn lemma_unbind_once(s: RegistryModel, id: int)
    requires
        live(s, id),
    ensures
        unbind_result(s, id) == Ok::<(), SignalError>(()),
        unbind_result(unbind_state(s, id), id) == Err::<(), SignalError>(
            SignalError::UnknownResource,
        ),
        unbind_state(unbind_state(s, id), id) == unbind_state(s, id),
{
}

/// Unknown handle: an identifier never handed out by any bind is rejected by
/// poll with `InvalidResource` and by unbind with `UnknownResource`, and
/// neither touches the registry.
pub proof fn lemma_unknown_id_rejected(
    s: RegistryModel,
    id: int,
    w: std::task::Waker,
    status: Option<SubscriptionStatus>,
)
    requires
        s.len() <= id,
    ensures
        poll_result(s, id, true, status) == Err::<PollStep, SignalError>(
            SignalError::InvalidResource,
        ),
        poll_state(s, id, w, status) == s,
        unbind_result(s, id) == Err::<(), SignalError>(SignalError::UnknownResource),
        unbind_state(s, id) == s,
{
}

} // verus!
