//! One shared storage cell per remote data domain.
//!
//! A slot starts `Unset`; the orchestrator claims it (moving it to `Pending`)
//! at the very moment it decides to dispatch a fetch, so a request in flight
//! can never be dispatched a second time; the completing fetch moves it once
//! to `Ready` or `Failed`; a domain whose credentials are absent is marked
//! `NotConfigured`. `Ready`, `Failed` and `NotConfigured` are terminal, and a
//! failed fetch is distinguishable from one still in flight.

use vstd::prelude::*;

verus! {

/// Why a fetch produced no value.
#[derive(Clone, Copy, Debug, PartialEq, Eq, Structural)]
pub enum FetchError {
    /// The request itself failed (connection refused, timeout, transport).
    Transport,
    /// A reply arrived but did not decode into the expected shape.
    Decode,
}

/// The state of one data domain's cell.
pub enum Slot<T> {
    /// No fetch has been considered yet.
    Unset,
    /// The domain's credentials are absent; no fetch will ever run.
    NotConfigured,
    /// A fetch was dispatched and has not completed.
    Pending,
    /// The fetch completed without a value.
    Failed(FetchError),
    /// The fetch completed with a value.
    Ready(T),
}

impl<T> Slot<T> {
    /// A state that no later transition leaves.
    pub open spec fn is_terminal(self) -> bool {
        self is NotConfigured || self is Failed || self is Ready
    }

    /// A fresh, empty slot.
    pub fn new() -> (s: Self)
        ensures
            s is Unset,
    {
        Slot::Unset
    }

    /// Whether a fetch for this slot is in flight.
    pub fn is_pending(&self) -> (b: bool)
        ensures
            b == (*self is Pending),
    {
        matches!(self, Slot::Pending)
    }

    /// Claims the slot for one fetch: exactly when the slot is still `Unset`
    /// it becomes `Pending` and the claim is granted; any other state is left
    /// untouched and the claim refused. Claiming at dispatch time is what
    /// keeps a render loop from issuing the same request twice.
    pub fn claim(&mut self) -> (granted: bool)
        ensures
            granted == (*old(self) is Unset),
            *final(self) == if *old(self) is Unset {
                Slot::<T>::Pending
            } else {
                *old(self)
            },
    {
        match self {
            Slot::Unset => {
                *self = Slot::Pending;
                true
            },
            _ => false,
        }
    }

    /// Marks a domain whose credentials are absent: an `Unset` slot becomes
    /// `NotConfigured`; every other state is left untouched.
    pub fn mark_not_configured(&mut self)
        ensures
            *final(self) == if *old(self) is Unset {
                Slot::<T>::NotConfigured
            } else {
                *old(self)
            },
    {
        match self {
            Slot::Unset => {
                *self = Slot::NotConfigured;
            },
            _ => {},
        }
    }

    /// Delivers the outcome of the dispatched fetch. A `Pending` slot moves
    /// to its terminal state — `Ready` on success, `Failed` otherwise — and
    /// any other slot is left untouched, so at most one terminal write ever
    /// lands in a slot.
    pub fn complete(&mut self, outcome: Result<T, FetchError>)
        ensures
            *old(self) is Pending && outcome is Ok ==> *final(self) == Slot::Ready(
                outcome->Ok_0,
            ),
            *old(self) is Pending && outcome is Err ==> *final(self) == Slot::<T>::Failed(
                outcome->Err_0,
            ),
            !(*old(self) is Pending) ==> *final(self) == *old(self),
    {
        match self {
            Slot::Pending => {
                match outcome {
                    Ok(v) => {
                        *self = Slot::Ready(v);
                    },
                    Err(e) => {
                        *self = Slot::Failed(e);
                    },
                }
            },
            _ => {},
        }
    }

    /// The value a completed fetch delivered, if there is one.
    pub fn value(&self) -> (r: Option<&T>)
        ensures
            match r {
                Some(v) => *self is Ready && *v == self->Ready_0,
                None => !(*self is Ready),
            },
    {
        match self {
            Slot::Ready(v) => Some(v),
            _ => None,
        }
    }
}

} // verus!
