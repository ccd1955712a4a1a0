//! The monitor thread's decisions: a state machine fed by the messages of its
//! native loop, which says what to hand to the report and log channels.
use std::collections::VecDeque;
use vstd::prelude::*;
use crate::registry::Registry;

verus! {

/// One observed process and its window.
#[derive(Clone, Debug)]
pub struct MonitorRecord {
    pub process_name: String,
    pub process_id: u32,
    pub title: String,
}

/// Where the monitor thread is in its life.
#[derive(Clone, Copy, Debug, PartialEq, Eq, Structural)]
pub enum MonitorState {
    NotStarted,
    Running,
    Draining,
    Stopped,
}

/// What the native loop hands the monitor thread.
#[derive(Debug)]
pub enum LoopMessage {
    /// A monitoring tick, with the records collected on it.
    Tick(Vec<MonitorRecord>),
    /// Collecting failed this time; the text describes why.
    CollectionFailed(String),
    /// The loop-breaking signal.
    Quit,
    /// The native loop cannot deliver messages any more; the text describes
    /// why.
    LoopUnavailable(String),
}

/// What the monitor thread dispatches.
#[derive(Debug)]
pub enum Output {
    /// A batch for the report channel.
    Report(Vec<MonitorRecord>),
    /// A line for the log channel.
    Log(String),
}

/// The next state and the dispatch, if any, for one message.
///
/// Only a running monitor acts: a tick is reported, a collection failure is
/// logged and the loop goes on, the quit signal starts draining, and a lost
/// loop is logged and stops the thread.
pub open spec fn step_spec(s: MonitorState, msg: LoopMessage) -> (MonitorState, Option<Output>) {
    if s == MonitorState::Running {
        match msg {
            LoopMessage::Tick(records) => (MonitorState::Running, Some(Output::Report(records))),
            LoopMessage::CollectionFailed(why) => (MonitorState::Running, Some(Output::Log(why))),
            LoopMessage::Quit => (MonitorState::Draining, None),
            LoopMessage::LoopUnavailable(why) => (MonitorState::Stopped, Some(Output::Log(why))),
        }
    } else {
        (s, None)
    }
}

/// The dispatches of one step, as a sequence.
pub open spec fn outputs_of(o: Option<Output>) -> Seq<Output> {
    match o {
        Some(x) => seq![x],
        None => Seq::empty(),
    }
}

/// The final state and every dispatch, in order, of a loop that starts in
/// `s` and is fed `msgs`. A draining monitor stops without reading further
/// messages; a stopped one reads none.
pub open spec fn run_spec(s: MonitorState, msgs: Seq<LoopMessage>) -> (MonitorState, Seq<Output>)
    decreases msgs.len(),
{
    if s == MonitorState::Stopped {
        (s, Seq::empty())
    } else if s == MonitorState::Draining {
        (MonitorState::Stopped, Seq::empty())
    } else if msgs.len() == 0 {
        (s, Seq::empty())
    } else {
        let (s1, o) = step_spec(s, msgs[0]);
        let rest = run_spec(s1, msgs.drop_first());
        (rest.0, outputs_of(o) + rest.1)
    }
}

/// How many of `msgs` a loop that starts in `s` reads before it stops or
/// runs out of messages.
pub open spec fn run_reads(s: MonitorState, msgs: Seq<LoopMessage>) -> nat
    decreases msgs.len(),
{
    if s == MonitorState::Stopped || s == MonitorState::Draining || msgs.len() == 0 {
        0
    } else {
        1 + run_reads(step_spec(s, msgs[0]).0, msgs.drop_first())
    }
}

/// The monitor thread's state machine.
///
/// A native loop that is lost, even on the very first message, is logged and
/// stops the monitor; the registry's initialization stands regardless.
pub struct Monitor {
    state: MonitorState,
}

impl View for Monitor {
    type V = MonitorState;

    closed spec fn view(&self) -> MonitorState {
        self.state
    }
}

impl Monitor {
    /// A monitor that has not started.
    pub fn new() -> (r: Self)
        ensures
            r@ == MonitorState::NotStarted,
    {
        Monitor { state: MonitorState::NotStarted }
    }

    /// The current state.
    pub fn state(&self) -> (r: MonitorState)
        ensures
            r == self@,
    {
        self.state
    }

    /// The thread has come up as `id`: its identity is recorded in the
    /// registry before the monitor runs, so that a teardown can reach it.
    /// A monitor that has already started is left as it is.
    pub fn start<R, L>(&mut self, registry: &mut Registry<R, L>, id: u32)
        ensures
            old(self)@ == MonitorState::NotStarted ==> {
                &&& final(self)@ == MonitorState::Running
                &&& final(registry)@ == (crate::registry::RegistryView { monitor_thread_id: id, ..old(registry)@ })
            },
            old(self)@ != MonitorState::NotStarted ==> {
                &&& final(self)@ == old(self)@
                &&& final(registry)@ == old(registry)@
            },
    {
        if self.state == MonitorState::NotStarted {
            registry.record_thread_identity(id);
            self.state = MonitorState::Running;
        }
    }

    /// Handles one message of the native loop and says what to dispatch.
    pub fn step(&mut self, msg: LoopMessage) -> (r: Option<Output>)
        ensures
            (final(self)@, r) == step_spec(old(self)@, msg),
    {
        if self.state != MonitorState::Running {
            return None;
        }
        match msg {
            LoopMessage::Tick(records) => Some(Output::Report(records)),
            LoopMessage::CollectionFailed(why) => Some(Output::Log(why)),
            LoopMessage::Quit => {
                self.state = MonitorState::Draining;
                None
            },
            LoopMessage::LoopUnavailable(why) => {
                self.state = MonitorState::Stopped;
                Some(Output::Log(why))
            },
        }
    }

    /// A draining monitor returns: no dispatch follows.
    pub fn finish(&mut self)
        ensures
            old(self)@ == MonitorState::Draining ==> final(self)@ == MonitorState::Stopped,
            old(self)@ != MonitorState::Draining ==> final(self)@ == old(self)@,
    {
        if self.state == MonitorState::Draining {
            self.state = MonitorState::Stopped;
        }
    }

    /// Runs the loop over `messages`, oldest first, until the monitor stops
    /// or the messages run out, and returns what it dispatched, in order.
    /// The messages it did not read stay queued, in order.
    pub fn run(&mut self, messages: &mut VecDeque<LoopMessage>) -> (r: Vec<Output>)
        ensures
            (final(self)@, r@) == run_spec(old(self)@, old(messages)@),
            final(messages)@ == old(messages)@.skip(run_reads(old(self)@, old(messages)@) as int),
    {
        let mut out: Vec<Output> = Vec::new();
        let ghost read: nat = 0;
        loop
            invariant
                run_spec(old(self)@, old(messages)@) == (run_spec(self@, messages@).0, out@ + run_spec(self@, messages@).1),
                run_reads(old(self)@, old(messages)@) == read + run_reads(self@, messages@),
                read <= old(messages)@.len(),
                messages@ == old(messages)@.skip(read as int),
            ensures
                run_spec(old(self)@, old(messages)@) == (self@, out@),
                run_reads(old(self)@, old(messages)@) == read,
                messages@ == old(messages)@.skip(read as int),
            decreases messages@.len(),
        {
            if self.state == MonitorState::Stopped {
                assert(out@ + Seq::<Output>::empty() =~= out@);
                break;
            }
            if self.state == MonitorState::Draining {
                self.finish();
                assert(out@ + Seq::<Output>::empty() =~= out@);
                break;
            }
            let ghost before = messages@;
            let ghost s = self@;
            match messages.pop_front() {
                None => {
                    assert(out@ + Seq::<Output>::empty() =~= out@);
                    break;
                },
                Some(msg) => {
                    assert(messages@ =~= before.drop_first());
                    assert(messages@ =~= old(messages)@.skip(read + 1 as int));
                    proof {
                        read = read + 1;
                    }
                    let o = self.step(msg);
                    let ghost prev = out@;
                    match o {
                        Some(x) => out.push(x),
                        None => {},
                    }
                    assert(out@ == prev + outputs_of(o));
                    assert(prev + outputs_of(o) + run_spec(self@, messages@).1 =~= prev + (outputs_of(o) + run_spec(self@, messages@).1));
                },
            }
        }
        out
    }
}

/// A stopped monitor stays stopped and dispatches nothing, whatever it is
/// fed.
pub proof fn lemma_stopped_is_final(msg: LoopMessage, msgs: Seq<LoopMessage>)
    ensures
        step_spec(MonitorState::Stopped, msg) == (MonitorState::Stopped, None::<Output>),
        run_spec(MonitorState::Stopped, msgs) == (MonitorState::Stopped, Seq::<Output>::empty()),
{
}

/// A running monitor that is sent the quit signal as its message `k` stops
/// on reading it: the state after the first `k + 1` messages is `Stopped`,
/// and nothing after them is read or dispatched.
pub proof fn lemma_quit_stops_within(s: MonitorState, msgs: Seq<LoopMessage>, k: int)
    requires
        s == MonitorState::Running,
        0 <= k < msgs.len(),
        msgs[k] is Quit,
    ensures
        run_spec(s, msgs.take(k + 1)).0 == MonitorState::Stopped,
        run_spec(s, msgs) == run_spec(s, msgs.take(k + 1)),
    decreases k,
{
    reveal_with_fuel(run_spec, 2);
    let t = msgs.take(k + 1);
    assert(t[0] == msgs[0]);
    if k > 0 {
        assert(t.drop_first() =~= msgs.drop_first().take(k));
        let (s1, _) = step_spec(s, msgs[0]);
        if s1 == MonitorState::Running {
            lemma_quit_stops_within(s1, msgs.drop_first(), k - 1);
        }
    }
}

} // verus!
