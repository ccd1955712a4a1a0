//! The process-wide registry: the two callback handles, set once, the
//! configuration word, the most recent status event and the monitor thread's
//! identity.
use vstd::prelude::*;

verus! {

/// Label of the status event that a successful initialization records.
pub open spec fn ready_label() -> Seq<char> {
    seq!['R', 'e', 'a', 'd', 'y']
}

/// How far in the past, in milliseconds, the initial status event is placed.
pub const READY_AGE_MS: u64 = 100_000;

/// The callback slot that a rejected initialization collided with.
#[derive(Clone, Copy, Debug, PartialEq, Eq, Structural)]
pub enum Slot {
    Report,
    Log,
}

/// Initialization was attempted after a handle had already been registered.
#[derive(Clone, Copy, Debug, PartialEq, Eq, Structural)]
pub struct AlreadyInitialized {
    pub slot: Slot,
}

/// A status transition and when it happened, in milliseconds of a monotonic
/// clock.
#[derive(Debug)]
pub struct EventState {
    pub label: String,
    pub timestamp: u64,
}

/// Set-once storage for the callback handles, plus the shared state that the
/// monitor and the teardown path read.
///
/// `R` is the report channel's handle, `L` the log channel's.
pub struct Registry<R, L> {
    report: Option<R>,
    log: Option<L>,
    config: u32,
    last_event: Option<EventState>,
    monitor_thread_id: u32,
}

/// Abstract state of a registry.
pub ghost struct RegistryView<R, L> {
    pub report: Option<R>,
    pub log: Option<L>,
    pub config: u32,
    pub last_event: Option<(Seq<char>, u64)>,
    pub monitor_thread_id: u32,
}

/// The state after an initialization attempt, and its outcome.
///
/// Both slots are checked before either is claimed: if one is taken nothing
/// changes, and the error names the report slot when both are. On success
/// the configuration is stored and the status event is set to `Ready`, placed
/// `READY_AGE_MS` before `now` (at zero if that lies before the clock's
/// origin), unless an event was already recorded.
pub open spec fn init_step<R, L>(v: RegistryView<R, L>, report: R, log: L, config: u32, now: u64) -> (RegistryView<R, L>, Result<(), AlreadyInitialized>) {
    if v.report is Some {
        (v, Err(AlreadyInitialized { slot: Slot::Report }))
    } else if v.log is Some {
        (v, Err(AlreadyInitialized { slot: Slot::Log }))
    } else {
        let event = if v.last_event is Some {
            v.last_event
        } else {
            Some((ready_label(), if now >= READY_AGE_MS { (now - READY_AGE_MS) as u64 } else { 0u64 }))
        };
        (RegistryView { report: Some(report), log: Some(log), config: config, last_event: event, ..v }, Ok(()))
    }
}

/// The state after recording the status event `label` at time `now`.
///
/// Timestamps never go backwards: the stored one is `now`, or the previous
/// one if that is later.
pub open spec fn record_step<R, L>(v: RegistryView<R, L>, label: Seq<char>, now: u64) -> RegistryView<R, L> {
    let t = match v.last_event {
        Some((_, prev)) => if prev > now { prev } else { now },
        None => now,
    };
    RegistryView { last_event: Some((label, t)), ..v }
}

impl<R, L> View for Registry<R, L> {
    type V = RegistryView<R, L>;

    closed spec fn view(&self) -> RegistryView<R, L> {
        RegistryView {
            report: self.report,
            log: self.log,
            config: self.config,
            last_event: match self.last_event {
                Some(e) => Some((e.label@, e.timestamp)),
                None => None,
            },
            monitor_thread_id: self.monitor_thread_id,
        }
    }
}

impl<R, L> Registry<R, L> {
    /// An empty registry: no handles, configuration 0, no event, no monitor
    /// thread.
    pub fn new() -> (r: Self)
        ensures
            r@ == (RegistryView::<R, L> {
                report: None,
                log: None,
                config: 0,
                last_event: None,
                monitor_thread_id: 0,
            }),
    {
        Registry { report: None, log: None, config: 0, last_event: None, monitor_thread_id: 0 }
    }

    /// Registers both callback handles and the configuration word. Only the
    /// first attempt succeeds; a later one reports which slot was taken and
    /// never replaces a registered handle.
    pub fn initialize(&mut self, report: R, log: L, config: u32, now: u64) -> (r: Result<(), AlreadyInitialized>)
        ensures
            (final(self)@, r) == init_step(old(self)@, report, log, config, now),
    {
        if self.report.is_some() {
            return Err(AlreadyInitialized { slot: Slot::Report });
        }
        if self.log.is_some() {
            return Err(AlreadyInitialized { slot: Slot::Log });
        }
        self.report = Some(report);
        self.log = Some(log);
        if self.last_event.is_none() {
            let label = "Ready".to_owned();
            proof {
                reveal_strlit("Ready");
                assert(label@ =~= ready_label());
            }
            let timestamp = now.saturating_sub(READY_AGE_MS);
            self.last_event = Some(EventState { label, timestamp });
        }
        self.config = config;
        Ok(())
    }

    /// Whether both handles are registered.
    pub fn is_initialized(&self) -> (r: bool)
        ensures
            r == (self@.report is Some && self@.log is Some),
    {
        self.report.is_some() && self.log.is_some()
    }

    /// Replaces the status event with `label`, stamped `now` (or the previous
    /// stamp, if that is later).
    pub fn record_event(&mut self, label: String, now: u64)
        ensures
            final(self)@ == record_step(old(self)@, label@, now),
    {
        let t = match &self.last_event {
            Some(e) => if e.timestamp > now { e.timestamp } else { now },
            None => now,
        };
        self.last_event = Some(EventState { label, timestamp: t });
    }

    /// The most recent status event, if any.
    pub fn last_event(&self) -> (r: Option<&EventState>)
        ensures
            match self@.last_event {
                Some((label, t)) => r matches Some(e) && e.label@ == label && e.timestamp == t,
                None => r is None,
            },
    {
        self.last_event.as_ref()
    }

    /// The configuration word stored by initialization.
    pub fn config(&self) -> (r: u32)
        ensures
            r == self@.config,
    {
        self.config
    }

    /// The report channel's handle, once registered.
    pub fn report_handle(&self) -> (r: Option<&R>)
        ensures
            match self@.report {
                Some(h) => r == Some(&h),
                None => r is None,
            },
    {
        self.report.as_ref()
    }

    /// The log channel's handle, once registered.
    pub fn log_handle(&self) -> (r: Option<&L>)
        ensures
            match self@.log {
                Some(h) => r == Some(&h),
                None => r is None,
            },
    {
        self.log.as_ref()
    }

    /// Stores the identity of the monitor thread; 0 stands for "unknown".
    pub fn record_thread_identity(&mut self, id: u32)
        ensures
            final(self)@ == (RegistryView { monitor_thread_id: id, ..old(self)@ }),
    {
        self.monitor_thread_id = id;
    }

    /// The recorded identity of the monitor thread, 0 if none.
    pub fn monitor_thread_id(&self) -> (r: u32)
        ensures
            r == self@.monitor_thread_id,
    {
        self.monitor_thread_id
    }
}

/// Of two initialization attempts, in whichever order they come, exactly the
/// first succeeds; the second is refused as colliding with the report slot
/// and leaves every registered value as the first left it.
pub proof fn lemma_initialize_once<R, L>(
    v: RegistryView<R, L>,
    report1: R,
    log1: L,
    config1: u32,
    now1: u64,
    report2: R,
    log2: L,
    config2: u32,
    now2: u64,
)
    requires
        v.report is None,
        v.log is None,
    ensures
        ({
            let (v1, r1) = init_step(v, report1, log1, config1, now1);
            let (v2, r2) = init_step(v1, report2, log2, config2, now2);
            &&& r1 is Ok
            &&& v1.report == Some(report1)
            &&& v1.log == Some(log1)
            &&& v1.config == config1
            &&& r2 == Err::<(), AlreadyInitialized>(AlreadyInitialized { slot: Slot::Report })
            &&& v2 == v1
        }),
{
}

/// A registered handle is never replaced, and a refused initialization
/// attempt changes nothing at all.
pub proof fn lemma_handles_never_replaced<R, L>(v: RegistryView<R, L>, report: R, log: L, config: u32, now: u64)
    ensures
        ({
            let (w, r) = init_step(v, report, log, config, now);
            &&& (r is Err ==> w == v)
            &&& (v.report is Some ==> w.report == v.report)
            &&& (v.log is Some ==> w.log == v.log)
            &&& w.monitor_thread_id == v.monitor_thread_id
        }),
{
}

/// A status event read right after it was recorded carries the recorded
/// label and a stamp no earlier than the time of the call, nor earlier than
/// the stamp it replaced.
pub proof fn lemma_record_then_read<R, L>(v: RegistryView<R, L>, label: Seq<char>, now: u64)
    ensures
        ({
            let w = record_step(v, label, now);
            &&& w.last_event matches Some((l, t))
            &&& l == label
            &&& t >= now
            &&& (v.last_event matches Some((_, t0)) ==> t >= t0)
            &&& w.report == v.report && w.log == v.log && w.config == v.config
        }),
{
}

} // verus!
