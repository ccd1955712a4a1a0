//! The teardown coordinator: when the host runtime goes away, it says which
//! thread, if any, must be sent the loop-breaking signal.
use vstd::prelude::*;
use crate::monitor::{LoopMessage, MonitorState, run_spec, lemma_quit_stops_within};

verus! {

/// Whether the signal has gone out, and the target of this call's signal.
///
/// The first teardown that finds a known thread (a non-zero identity) signals
/// it; any other call does nothing.
pub open spec fn teardown_step(signaled: bool, thread_id: u32) -> (bool, Option<u32>) {
    if !signaled && thread_id != 0 {
        (true, Some(thread_id))
    } else {
        (signaled, None)
    }
}

/// Decides the signal sent to the monitor thread when the host runtime tears
/// down.
pub struct ShutdownCoordinator {
    signaled: bool,
}

impl View for ShutdownCoordinator {
    type V = bool;

    /// Whether the loop-breaking signal has been sent.
    closed spec fn view(&self) -> bool {
        self.signaled
    }
}

impl ShutdownCoordinator {
    /// A coordinator that has sent nothing.
    pub fn new() -> (r: Self)
        ensures
            !r@,
    {
        ShutdownCoordinator { signaled: false }
    }

    /// Whether the loop-breaking signal has been sent.
    pub fn has_signaled(&self) -> (r: bool)
        ensures
            r == self@,
    {
        self.signaled
    }

    /// The teardown hook, given the monitor thread's recorded identity.
    /// Returns the thread to which the quit signal must be posted, or `None`
    /// when there is nothing to do: no thread known yet (identity 0), or the
    /// signal already sent.
    pub fn on_teardown(&mut self, thread_id: u32) -> (r: Option<u32>)
        ensures
            (final(self)@, r) == teardown_step(old(self)@, thread_id),
    {
        if !self.signaled && thread_id != 0 {
            self.signaled = true;
            Some(thread_id)
        } else {
            None
        }
    }
}

/// A teardown before the monitor thread has recorded its identity does
/// nothing at all.
pub proof fn lemma_teardown_without_identity(signaled: bool)
    ensures
        teardown_step(signaled, 0) == (signaled, None::<u32>),
{
}

/// A second teardown is a no-op: it sends nothing and changes nothing, and
/// so does every later one.
pub proof fn lemma_teardown_twice(signaled: bool, thread_id: u32)
    ensures
        ({
            let (after_first, _) = teardown_step(signaled, thread_id);
            teardown_step(after_first, thread_id) == (after_first, None::<u32>)
        }),
        ({
            let (after_first, first) = teardown_step(signaled, thread_id);
            first is Some ==> forall|later: u32| teardown_step(after_first, later) == (after_first, None::<u32>)
        }),
{
}

/// Once the running monitor has recorded a non-zero identity, the first
/// teardown signals exactly that thread, and the quit message posted to it
/// stops the monitor after the messages already queued ahead of it, with
/// nothing read after it.
pub proof fn lemma_teardown_stops_monitor(thread_id: u32, queued: Seq<LoopMessage>, later: Seq<LoopMessage>)
    requires
        thread_id != 0,
    ensures
        teardown_step(false, thread_id) == (true, Some(thread_id)),
        run_spec(MonitorState::Running, queued.push(LoopMessage::Quit)).0 == MonitorState::Stopped,
        run_spec(MonitorState::Running, queued.push(LoopMessage::Quit) + later)
            == run_spec(MonitorState::Running, queued.push(LoopMessage::Quit)),
{
    let msgs = queued.push(LoopMessage::Quit) + later;
    let k = queued.len() as int;
    assert(msgs[k] is Quit);
    lemma_quit_stops_within(MonitorState::Running, msgs, k);
    assert(msgs.take(k + 1) =~= queued.push(LoopMessage::Quit));
}

} // verus!
