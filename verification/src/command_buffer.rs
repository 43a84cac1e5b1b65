//! The command-buffer lifecycle state machine:
//! allocate → record → submit → wait, gated by an owned fence.
//!
//! Each lifecycle state is a distinct move-only type — [`CommandBuffer`]
//! (unrecorded), [`Recording`], [`SubmittedRecording`] — so a handle from an
//! earlier state cannot be reused after a transition.  A `Single`-use buffer
//! is permanently exhausted by its one submission; a `Multi`-use buffer
//! returns to the unrecorded state after its fence is waited on and may be
//! re-recorded indefinitely.

use vstd::prelude::*;
use vstd::pervasive::unreached;

use crate::error::Error;
use crate::error::Violation;
use crate::sync::Fence;

verus! {

/// Reuse policy of a command buffer: `Single`-use buffers reject any
/// recording after their one submission, `Multi`-use buffers may be
/// re-recorded once their previous submission has completed.
#[derive(Clone, Copy, Debug, PartialEq, Eq, Structural)]
pub enum CommandBufferUses {
    Single,
    Multi,
}

/// An unrecorded command buffer: one device command stream, an owned fence
/// that gates re-recording against the previous submission, a reuse policy,
/// and a `usable` flag that a single use exhausts.
pub struct CommandBuffer {
    fence: Fence,
    uses: CommandBufferUses,
    usable: bool,
}

impl CommandBuffer {
    pub closed spec fn spec_uses(self) -> CommandBufferUses {
        self.uses
    }

    pub closed spec fn spec_usable(self) -> bool {
        self.usable
    }

    /// Well-formedness of a resting command buffer: its fence is signaled,
    /// because the fence starts pre-signaled and every submission is
    /// completed (and its fence re-signaled) before the buffer is handed
    /// back by [`SubmittedRecording::wait`].
    pub closed spec fn wf(self) -> bool {
        self.fence.spec_signaled()
    }

    /// Allocate a fresh command buffer with a pre-signaled fence.
    pub fn new(uses: CommandBufferUses) -> (cb: CommandBuffer)
        ensures
            cb.wf(),
            cb.spec_uses() == uses,
            cb.spec_usable(),
    {
        CommandBuffer { fence: Fence::new(true), uses, usable: true }
    }

    pub fn uses(&self) -> (u: CommandBufferUses)
        ensures
            u == self.spec_uses(),
    {
        self.uses
    }

    pub fn is_usable(&self) -> (b: bool)
        ensures
            b == self.spec_usable(),
    {
        self.usable
    }

    /// Enter the recording state.  A buffer that is no longer usable — a
    /// `Single`-use buffer already consumed — is rejected with a contract
    /// violation.  Otherwise this first waits on the buffer's own fence,
    /// serializing the new recording against the previous submission of the
    /// same buffer: the device forbids recording into a command buffer that
    /// is still executing.
    pub fn start_recording(self) -> (r: Result<Recording, Error>)
        requires
            self.wf(),
        ensures
            self.spec_usable() ==> (r matches Ok(rec) && rec.spec_cmd() == self),
            !self.spec_usable() ==> r == Err::<Recording, Error>(
                Error::Contract(Violation::CommandBufferConsumed),
            ),
    {
        if !self.usable {
            return Err(Error::Contract(Violation::CommandBufferConsumed));
        }
        self.fence.wait();
        Ok(Recording { cmd: self })
    }
}

/// The relation between a command buffer before and after one submission:
/// the reuse policy is kept, a `Single`-use buffer loses its usability
/// permanently, and the buffer is well-formed again once the submitted work
/// has completed.
pub open spec fn spec_submit_transition(before: CommandBuffer, after: CommandBuffer) -> bool {
    &&& after.spec_uses() == before.spec_uses()
    &&& after.spec_usable() == (before.spec_usable() && before.spec_uses() is Multi)
    &&& after.wf()
}

/// An open recording: commands may be appended until it is submitted.  The
/// recording owns its command buffer, so the unrecorded handle cannot be
/// touched while recording is in progress.  Recording a buffer copy turns
/// it into a typed copy pass that carries the buffers involved; an empty
/// recording can be submitted and waited on directly.
pub struct Recording {
    cmd: CommandBuffer,
}

impl Recording {
    pub closed spec fn spec_cmd(self) -> CommandBuffer {
        self.cmd
    }

    pub open spec fn wf(self) -> bool {
        self.spec_cmd().wf()
    }

    /// Re-enter the recording state around an already-started command
    /// buffer; used by the buffer layer's copy pass, which carries the
    /// command buffer through its own typed states.
    pub(crate) fn from_cmd(cmd: CommandBuffer) -> (r: Recording)
        ensures
            r.spec_cmd() == cmd,
    {
        Recording { cmd }
    }

    pub(crate) fn into_cmd(self) -> (cb: CommandBuffer)
        ensures
            cb == self.spec_cmd(),
    {
        self.cmd
    }

    /// End the recording, reset the fence, and submit one batch holding
    /// exactly this command buffer, with the fence as the completion
    /// signal.  A `Single`-use buffer becomes permanently unusable as part
    /// of the same step.  The model's device completes the batch
    /// synchronously, so the fence is signaled again by the time the
    /// submitted handle is returned.
    pub fn submit(self) -> (s: SubmittedRecording)
        ensures
            spec_submit_transition(self.spec_cmd(), s.spec_cmd()),
    {
        let Recording { mut cmd } = self;
        if matches!(cmd.uses, CommandBufferUses::Single) {
            cmd.usable = false;
        }
        cmd.fence.reset();
        cmd.fence.signal();
        SubmittedRecording { cmd }
    }
}

/// A submitted recording: the only operation left is to wait for the work
/// to complete, which hands the command buffer back.
pub struct SubmittedRecording {
    cmd: CommandBuffer,
}

impl SubmittedRecording {
    pub closed spec fn spec_cmd(self) -> CommandBuffer {
        self.cmd
    }

    pub open spec fn wf(self) -> bool {
        self.spec_cmd().wf()
    }

    /// Counterpart of [`Recording::from_cmd`] for the buffer layer's copy
    /// pass: pass the in-flight command buffer in and out of the untyped
    /// submitted state.
    pub(crate) fn from_cmd(cmd: CommandBuffer) -> (r: SubmittedRecording)
        ensures
            r.spec_cmd() == cmd,
    {
        SubmittedRecording { cmd }
    }

    pub(crate) fn into_cmd(self) -> (cb: CommandBuffer)
        ensures
            cb == self.spec_cmd(),
    {
        self.cmd
    }

    /// Block on the fence until the device signals completion, then return
    /// the command buffer: a `Multi`-use buffer is back in the unrecorded
    /// state, a `Single`-use buffer comes back unusable and is terminal.
    pub fn wait(self) -> (cb: CommandBuffer)
        requires
            self.wf(),
        ensures
            cb == self.spec_cmd(),
    {
        self.cmd.fence.wait();
        self.cmd
    }

    /// Block on the fence for at most `timeout`.  In this model, submitted
    /// work completes synchronously, so the fence of a well-formed
    /// submission is already signaled and the bounded wait always succeeds;
    /// a real device backend could report [`Error::Timeout`] here, which
    /// bounds the caller's block without cancelling the work.
    pub fn wait_with_timeout(self, timeout: u64) -> (r: Result<CommandBuffer, Error>)
        requires
            self.wf(),
        ensures
            r matches Ok(cb) && cb == self.spec_cmd(),
    {
        match self.cmd.fence.wait_with_timeout(timeout) {
            Ok(_) => Ok(self.cmd),
            Err(_) => unreached(),
        }
    }
}

/// Reusability law: a usable, well-formed `Multi`-use command buffer comes
/// out of a submission usable and well-formed again, with its policy
/// unchanged — so the record → submit → wait cycle can be repeated any
/// number of times without error ([`CommandBuffer::start_recording`]
/// succeeds exactly on usable buffers).
pub proof fn lemma_multi_use_reusable(before: CommandBuffer, after: CommandBuffer)
    requires
        before.spec_uses() is Multi,
        before.spec_usable(),
        before.wf(),
        spec_submit_transition(before, after),
    ensures
        after.spec_uses() is Multi,
        after.spec_usable(),
        after.wf(),
{
}

/// Exhaustion law: a `Single`-use command buffer is permanently unusable
/// after its one submission, so any later
/// [`CommandBuffer::start_recording`] is rejected with
/// [`Violation::CommandBufferConsumed`].
pub proof fn lemma_single_use_consumed(before: CommandBuffer, after: CommandBuffer)
    requires
        before.spec_uses() is Single,
        spec_submit_transition(before, after),
    ensures
        !after.spec_usable(),
{
}

} // verus!
