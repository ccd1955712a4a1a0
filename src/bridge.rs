//! The callback bridge: one channel per kind of payload, whose dispatches are
//! queued for the host runtime and handed over in the order they were made.
use std::collections::VecDeque;
use vstd::prelude::*;

verus! {

/// Why a dispatch was not queued.
#[derive(Clone, Copy, Debug, PartialEq, Eq, Structural)]
pub enum DispatchError {
    /// The host runtime behind the channel has been torn down.
    RuntimeShuttingDown,
}

/// A channel from a producing thread to the host runtime.
///
/// Payloads are queued by `dispatch` and taken by the host side with
/// `deliver_next`, first in, first out. Once the host side has torn down the
/// channel refuses further payloads.
pub struct Channel<T> {
    pending: VecDeque<T>,
    open: bool,
}

/// Abstract state of a channel: the payloads not yet delivered, oldest
/// first, and whether the host runtime still accepts payloads.
pub ghost struct ChannelView<T> {
    pub pending: Seq<T>,
    pub open: bool,
}

/// The state after one dispatch, and its outcome.
pub open spec fn dispatch_step<T>(c: ChannelView<T>, payload: T) -> (ChannelView<T>, Result<(), DispatchError>) {
    if c.open {
        (ChannelView { pending: c.pending.push(payload), open: true }, Ok(()))
    } else {
        (c, Err(DispatchError::RuntimeShuttingDown))
    }
}

/// The state after dispatching each of `payloads` in turn.
pub open spec fn dispatch_all<T>(c: ChannelView<T>, payloads: Seq<T>) -> ChannelView<T>
    decreases payloads.len(),
{
    if payloads.len() == 0 {
        c
    } else {
        dispatch_all(dispatch_step(c, payloads[0]).0, payloads.drop_first())
    }
}

impl<T> View for Channel<T> {
    type V = ChannelView<T>;

    closed spec fn view(&self) -> ChannelView<T> {
        ChannelView { pending: self.pending@, open: self.open }
    }
}

impl<T> Channel<T> {
    /// An open channel with nothing queued.
    pub fn new() -> (r: Self)
        ensures
            r@.pending == Seq::<T>::empty(),
            r@.open,
    {
        Channel { pending: VecDeque::new(), open: true }
    }

    /// Whether the host runtime still accepts payloads.
    pub fn is_open(&self) -> (r: bool)
        ensures
            r == self@.open,
    {
        self.open
    }

    /// Number of payloads queued and not yet delivered.
    pub fn pending_len(&self) -> (r: usize)
        ensures
            r == self@.pending.len(),
    {
        self.pending.len()
    }

    /// Queues `payload` for the host runtime without waiting for it to be
    /// handled. After teardown the payload is dropped and
    /// `RuntimeShuttingDown` is returned; the channel is left as it was.
    pub fn dispatch(&mut self, payload: T) -> (r: Result<(), DispatchError>)
        ensures
            (final(self)@, r) == dispatch_step(old(self)@, payload),
    {
        if self.open {
            self.pending.push_back(payload);
            Ok(())
        } else {
            Err(DispatchError::RuntimeShuttingDown)
        }
    }

    /// The host side takes the oldest queued payload, if any.
    pub fn deliver_next(&mut self) -> (r: Option<T>)
        ensures
            old(self)@.pending.len() == 0 ==> r is None && final(self)@ == old(self)@,
            old(self)@.pending.len() > 0 ==> {
                &&& r == Some(old(self)@.pending[0])
                &&& final(self)@.pending == old(self)@.pending.drop_first()
                &&& final(self)@.open == old(self)@.open
            },
    {
        self.pending.pop_front()
    }

    /// The host side takes every queued payload at once, oldest first.
    pub fn deliver_all(&mut self) -> (r: Vec<T>)
        ensures
            r@ == old(self)@.pending,
            final(self)@ == (ChannelView { pending: Seq::<T>::empty(), open: old(self)@.open }),
    {
        let mut out: Vec<T> = Vec::new();
        while self.pending.len() > 0
            invariant
                out@ + self@.pending == old(self)@.pending,
                self@.open == old(self)@.open,
            decreases self@.pending.len(),
        {
            let ghost before = self@.pending;
            match self.pending.pop_front() {
                Some(p) => {
                    out.push(p);
                    assert(out@ + self@.pending =~= old(self)@.pending) by {
                        assert(before =~= seq![before[0]] + before.drop_first());
                    }
                }
                None => {}
            }
        }
        assert(self@.pending =~= Seq::<T>::empty());
        assert(out@ + self@.pending =~= out@);
        out
    }

    /// The host runtime tears down: every later dispatch is refused.
    /// Payloads already queued stay queued.
    pub fn tear_down(&mut self)
        ensures
            final(self)@ == (ChannelView { pending: old(self)@.pending, open: false }),
    {
        self.open = false;
    }
}

/// Dispatches from one thread reach the host in the order they were made:
/// dispatching `payloads` one after another on an open channel appends them,
/// in that order, behind what was already queued, and the channel stays open.
pub proof fn lemma_dispatch_keeps_order<T>(c: ChannelView<T>, payloads: Seq<T>)
    requires
        c.open,
    ensures
        dispatch_all(c, payloads) == (ChannelView { pending: c.pending + payloads, open: true }),
    decreases payloads.len(),
{
    if payloads.len() > 0 {
        let next = dispatch_step(c, payloads[0]).0;
        lemma_dispatch_keeps_order(next, payloads.drop_first());
        assert(c.pending.push(payloads[0]) + payloads.drop_first() =~= c.pending + payloads);
    } else {
        assert(c.pending + payloads =~= c.pending);
    }
}

/// After the host runtime has torn down, every dispatch is refused with
/// `RuntimeShuttingDown` and leaves the channel as it was, however many are
/// made.
pub proof fn lemma_dispatch_after_teardown<T>(c: ChannelView<T>, payloads: Seq<T>)
    requires
        !c.open,
    ensures
        dispatch_all(c, payloads) == c,
        forall|i: int| 0 <= i < payloads.len() ==> dispatch_step(c, #[trigger] payloads[i]).1
            == Err::<(), DispatchError>(DispatchError::RuntimeShuttingDown),
    decreases payloads.len(),
{
    if payloads.len() > 0 {
        lemma_dispatch_after_teardown(c, payloads.drop_first());
    }
}

} // verus!
