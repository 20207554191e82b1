use vstd::prelude::*;

use crate::error::ServiceError;

verus! {

/// The process-wide slot that holds the one live service handle.
pub struct ServiceRegistry<H> {
    slot: Option<H>,
}

impl<H> ServiceRegistry<H> {
    /// The handle held, if a start has published one.
    pub closed spec fn view(&self) -> Option<H> {
        self.slot
    }

    /// An empty slot: nothing has been started.
    pub fn new() -> (r: Self)
        ensures
            r@ is None,
    {
        ServiceRegistry { slot: None }
    }

    /// Publishes the handle of a successful start, replacing any earlier one.
    /// Returns the handle that was replaced, so that the caller can shut it down.
    pub fn publish(&mut self, handle: H) -> (previous: Option<H>)
        ensures
            final(self)@ == Some(handle),
            previous == old(self)@,
    {
        let previous = self.slot.take();
        self.slot = Some(handle);
        previous
    }

    /// Empties the slot after a shutdown and hands back the handle it held.
    pub fn clear(&mut self) -> (previous: Option<H>)
        ensures
            final(self)@ is None,
            previous == old(self)@,
    {
        self.slot.take()
    }

    /// Whether a handle is published.
    pub fn is_started(&self) -> (r: bool)
        ensures
            r == self@ is Some,
    {
        self.slot.is_some()
    }

    /// The published handle; callers must have seen a successful start.
    pub fn get(&self) -> (r: &H)
        requires
            self@ is Some,
        ensures
            *r == self@->0,
    {
        self.slot.as_ref().unwrap()
    }

    /// The published handle, or `ServiceNotInitialized` before start and after shutdown.
    pub fn current(&self) -> (r: Result<&H, ServiceError>)
        ensures
            match self@ {
                Some(h) => r == Ok::<&H, ServiceError>(&h),
                None => r == Err::<&H, ServiceError>(ServiceError::ServiceNotInitialized),
            },
    {
        match &self.slot {
            Some(h) => Ok(h),
            None => Err(ServiceError::ServiceNotInitialized),
        }
    }

    /// The published handle, or `None` when nothing is published.
    pub fn try_get(&self) -> (r: Option<&H>)
        ensures
            match self@ {
                Some(h) => r == Some(&h),
                None => r is None,
            },
    {
        self.slot.as_ref()
    }
}

/// Whether a service handle may still be used: live from start until shutdown.
pub struct Liveness {
    live: bool,
}

impl Liveness {
    /// True until the handle is shut down.
    pub closed spec fn view(&self) -> bool {
        self.live
    }

    /// The state of a handle that has just started.
    pub fn new() -> (r: Self)
        ensures
            r@,
    {
        Liveness { live: true }
    }

    /// Records that the handle was shut down.
    pub fn mark_shut_down(&mut self)
        ensures
            !final(self)@,
    {
        self.live = false;
    }

    /// Admits an operation through the handle only while it is live.
    pub fn require_live(&self) -> (r: Result<(), ServiceError>)
        ensures
            r == if self@ {
                Ok::<(), ServiceError>(())
            } else {
                Err::<(), ServiceError>(ServiceError::ServiceNotInitialized)
            },
    {
        if self.live {
            Ok(())
        } else {
            Err(ServiceError::ServiceNotInitialized)
        }
    }
}

} // verus!
