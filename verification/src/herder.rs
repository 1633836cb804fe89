//! Messages between the parent process and the herder daemon, and the
//! handling of transport errors on the streams between them.
use vstd::prelude::*;

verus! {

/// Tells the herder to start a herd that performs `action`.
#[derive(Debug, Clone, PartialEq, Eq)]
pub struct StartHerd<A> {
    /// Id to associate with all of the herd's events.
    pub id: u64,
    /// The action to perform.
    pub action: A,
}

/// An action a herd can be started for, such as writing or verifying.
pub trait HerderAction {
    /// What the herd reports once started.
    type Start;
    /// How the action can fail.
    type Error;
    /// The events the herd emits afterwards.
    type Event;
}

impl<A> StartHerd<A> {
    /// The request to start `action` under `id`.
    pub fn new(id: u64, action: A) -> (s: Self)
        ensures
            s.id == id,
            s.action == action,
    {
        StartHerd { id, action }
    }
}

/// What happens to one item of a stream that shares an error slot with
/// other streams and futures.
#[derive(Debug, Clone, Copy, PartialEq, Eq)]
pub enum ErrorInjection {
    /// The item passes through.
    Pass,
    /// The error already in the slot replaces the item.
    ReplaceWithStored,
    /// The item is an error: it goes into the slot and passes through.
    StoreAndPass,
}

/// An error already signalled wins over any item; otherwise an error item is
/// signalled to the others. The stream stops at its first error item.
pub fn inject_error(item_is_ok: bool, error_stored: bool) -> (d: ErrorInjection)
    ensures
        d == (if error_stored {
            ErrorInjection::ReplaceWithStored
        } else if item_is_ok {
            ErrorInjection::Pass
        } else {
            ErrorInjection::StoreAndPass
        }),
{
    if error_stored {
        ErrorInjection::ReplaceWithStored
    } else if item_is_ok {
        ErrorInjection::Pass
    } else {
        ErrorInjection::StoreAndPass
    }
}

} // verus!
