//! Synchronization primitives: the binary fence used to observe completion
//! of submitted device work, and the semaphore companion.
//!
//! The fence is modeled by its observable state — signaled or not.  In this
//! model, submitted work completes synchronously, so a fence belonging to a
//! command buffer is signaled again by the time the submission returns; an
//! unbounded wait on a fence that will never be signaled would block
//! forever, so that input is excluded by precondition.

use vstd::prelude::*;

use crate::error::Error;

verus! {

/// A binary signaled/unsignaled synchronization object.
pub struct Fence {
    signaled: bool,
}

impl Fence {
    /// Whether the fence is in the signaled state.
    pub closed spec fn spec_signaled(self) -> bool {
        self.signaled
    }

    /// Create a fence, pre-signaled on request (a command buffer's fence
    /// starts signaled so that the first recording does not block).
    pub fn new(signaled: bool) -> (f: Fence)
        ensures
            f.spec_signaled() == signaled,
    {
        Fence { signaled }
    }

    pub fn is_signaled(&self) -> (b: bool)
        ensures
            b == self.spec_signaled(),
    {
        self.signaled
    }

    /// Block until the fence is signaled, or until `timeout` elapses.  An
    /// elapsed bounded wait is reported as [`Error::Timeout`], a distinct
    /// recoverable kind.  An unbounded wait (`u64::MAX`) on a fence that is
    /// not signaled would never return, so it is excluded by precondition.
    pub fn wait_with_timeout(&self, timeout: u64) -> (r: Result<(), Error>)
        requires
            timeout < u64::MAX || self.spec_signaled(),
        ensures
            r is Ok <==> self.spec_signaled(),
            r is Err ==> r == Err::<(), Error>(Error::Timeout),
    {
        if self.signaled {
            Ok(())
        } else {
            Err(Error::Timeout)
        }
    }

    /// Block until the fence is signaled, with no bound on the wait.  The
    /// precondition excludes the input on which this call would never
    /// return.
    pub fn wait(&self)
        requires
            self.spec_signaled(),
    {
    }

    /// Clear the fence to the unsignaled state.
    pub fn reset(&mut self)
        ensures
            !final(self).spec_signaled(),
    {
        self.signaled = false;
    }

    /// Mark the fence signaled: the model counterpart of the device
    /// completing the work that was submitted with this fence attached.
    pub(crate) fn signal(&mut self)
        ensures
            final(self).spec_signaled(),
    {
        self.signaled = true;
    }
}

/// A device-level semaphore.  The model gives it no observable state; it
/// exists as the counterpart of the fence for queue-to-queue ordering.
pub struct Semaphore {
}

impl Semaphore {
    pub fn new() -> (s: Semaphore) {
        Semaphore {  }
    }
}

} // verus!
