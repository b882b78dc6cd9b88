//! Starting, tearing down and reloading the set of long-running components.
//! The components themselves run outside; what is decided here is when a
//! set is started or torn down, which scope is cancelled, and when a teardown
//! gives up waiting.
use vstd::prelude::*;

verus! {

/// How long a teardown waits for its components, in milliseconds.
pub const TEARDOWN_TIMEOUT_MS: u64 = 3000;

/// Progress of one teardown.
pub enum TeardownStatus {
    /// Some component is still running and the deadline has not passed.
    Waiting,
    /// Every component finished.
    Graceful,
    /// The deadline passed; these components (by index) are abandoned.
    TimedOut { abandoned: Vec<usize> },
}

pub open spec fn all_finished(finished: Seq<bool>) -> bool {
    forall|i: int| 0 <= i < finished.len() ==> #[trigger] finished[i]
}

/// A teardown keeps waiting only while some component runs and the
/// deadline lies ahead.
pub open spec fn teardown_waiting(finished: Seq<bool>, deadline_ms: u64, now_ms: u64) -> bool {
    !all_finished(finished) && now_ms < deadline_ms
}

/// `abandoned` lists, in increasing order, exactly the indices of the
/// components that have not finished.
pub open spec fn lists_unfinished(abandoned: Seq<usize>, finished: Seq<bool>) -> bool {
    &&& forall|k: int|
        0 <= k < abandoned.len() ==> #[trigger] abandoned[k] < finished.len() && !finished[abandoned[k] as int]
    &&& forall|k: int, l: int| 0 <= k < l < abandoned.len() ==> abandoned[k] < abandoned[l]
    &&& forall|i: int|
        0 <= i < finished.len() && !#[trigger] finished[i] ==> exists|k: int|
            0 <= k < abandoned.len() && abandoned[k] == i
}

/// Waiting, bounded by a deadline, for the components of a set to finish.
pub struct Teardown {
    pub deadline_ms: u64,
    pub finished: Vec<bool>,
}

impl Teardown {
    /// A teardown of `components` components that started at `now_ms`.
    pub fn new(now_ms: u64, timeout_ms: u64, components: usize) -> (r: Teardown)
        ensures
            r.deadline_ms == if now_ms as int + timeout_ms as int <= u64::MAX as int {
                now_ms as int + timeout_ms as int
            } else {
                u64::MAX as int
            },
            r.finished@ == Seq::new(components as nat, |i: int| false),
    {
        let deadline_ms = if now_ms <= u64::MAX - timeout_ms {
            now_ms + timeout_ms
        } else {
            u64::MAX
        };
        let mut finished: Vec<bool> = Vec::with_capacity(components);
        let mut i: usize = 0;
        while i < components
            invariant
                i <= components,
                finished@ =~= Seq::new(i as nat, |j: int| false),
            decreases components - i,
        {
            finished.push(false);
            i = i + 1;
        }
        Teardown { deadline_ms, finished }
    }

    /// Records that component `i` finished.
    pub fn mark_finished(&mut self, i: usize)
        requires
            i < old(self).finished@.len(),
        ensures
            final(self).deadline_ms == old(self).deadline_ms,
            final(self).finished@ == old(self).finished@.update(i as int, true),
    {
        self.finished.set(i, true);
    }

    /// Where the teardown stands at `now_ms`.
    pub fn poll(&self, now_ms: u64) -> (r: TeardownStatus)
        ensures
            r is Waiting <==> teardown_waiting(self.finished@, self.deadline_ms, now_ms),
            r is Graceful <==> all_finished(self.finished@),
            r is TimedOut ==> lists_unfinished(r->abandoned@, self.finished@),
    {
        let mut abandoned: Vec<usize> = Vec::new();
        let mut i: usize = 0;
        while i < self.finished.len()
            invariant
                i <= self.finished@.len(),
                forall|k: int|
                    0 <= k < abandoned@.len() ==> #[trigger] abandoned@[k] < i && !self.finished@[abandoned@[k] as int],
                forall|k: int, l: int| 0 <= k < l < abandoned@.len() ==> abandoned@[k] < abandoned@[l],
                forall|j: int|
                    0 <= j < i && !#[trigger] self.finished@[j] ==> exists|k: int|
                        0 <= k < abandoned@.len() && abandoned@[k] == j,
            decreases self.finished.len() - i,
        {
            if !self.finished[i] {
                let ghost before = abandoned@;
                abandoned.push(i);
                proof {
                    assert forall|j: int|
                        0 <= j <= i && !#[trigger] self.finished@[j] implies exists|k: int|
                            0 <= k < abandoned@.len() && abandoned@[k] == j by {
                        if j < i {
                            let k = choose|k: int| 0 <= k < before.len() && before[k] == j;
                            assert(abandoned@[k] == j);
                        } else {
                            assert(abandoned@[before.len() as int] == j);
                        }
                    }
                }
            }
            i = i + 1;
        }
        if abandoned.len() == 0 {
            assert(all_finished(self.finished@)) by {
                assert forall|j: int| 0 <= j < self.finished@.len() implies #[trigger] self.finished@[j] by {
                    if !self.finished@[j] {
                        let k = choose|k: int| 0 <= k < abandoned@.len() && abandoned@[k] == j;
                    }
                }
            }
            TeardownStatus::Graceful
        } else {
            assert(!all_finished(self.finished@)) by {
                assert(!self.finished@[abandoned@[0] as int]);
            }
            if now_ms < self.deadline_ms {
                TeardownStatus::Waiting
            } else {
                TeardownStatus::TimedOut { abandoned }
            }
        }
    }
}

/// A teardown never keeps waiting once its deadline has come, whatever its
/// components do, and its deadline lies at most `timeout_ms` after its start.
pub proof fn lemma_teardown_bounded(finished: Seq<bool>, start_ms: u64, timeout_ms: u64, deadline_ms: u64, now_ms: u64)
    requires
        deadline_ms <= start_ms + timeout_ms,
        now_ms >= start_ms + timeout_ms,
    ensures
        !teardown_waiting(finished, deadline_ms, now_ms),
{
}

/// Where the one component-set slot stands.
#[derive(Clone, Copy, Debug, PartialEq, Eq, Structural)]
pub enum Phase {
    /// Nothing was started yet.
    Uninitialized,
    /// A set is being started.
    Starting,
    /// A set runs.
    Live,
    /// The live set's scope was cancelled and its components are awaited.
    TearingDown,
    /// Starting a set failed: no component runs, and none is restarted.
    Failed,
    /// The process scope was cancelled and the last set is gone.
    ShutDown,
}

/// What happened, as reported by whoever runs the components.
#[derive(Clone, Copy, Debug, PartialEq, Eq, Structural)]
pub enum LifecycleEvent {
    /// The process starts.
    Start,
    /// Every component of the set being started runs.
    Started,
    /// Some component failed to start; its started siblings were torn down.
    StartFailed,
    /// The configuration changed.
    ReloadRequested,
    /// The teardown of the set finished, gracefully or by timeout.
    TornDown,
    /// The process-wide shutdown signal fired.
    Shutdown,
}

/// What to do next.
#[derive(Clone, Copy, Debug, PartialEq, Eq, Structural)]
pub enum LifecycleAction {
    Nothing,
    /// Start a new set, of this generation, under a fresh child scope of the
    /// process scope, with the current configuration.
    StartComponents { generation: u64 },
    /// Cancel the scope of the set of this generation and await it, bounded
    /// by `TEARDOWN_TIMEOUT_MS`.
    TearDown { generation: u64 },
    /// Starting failed and nothing runs: surface the error.
    ReportFailure,
    /// Everything is down after shutdown.
    Exit,
}

/// The orchestrator of the one component-set slot.
#[derive(Clone, Copy, Debug, PartialEq, Eq, Structural)]
pub struct Orchestrator {
    pub phase: Phase,
    /// Generation of the set that is starting, live or torn down.
    pub generation: u64,
    /// The process-wide scope was cancelled.
    pub process_cancelled: bool,
    /// The current set's own child scope was cancelled.
    pub set_cancelled: bool,
    /// A reload arrived while another was in progress.
    pub reload_queued: bool,
}

pub open spec fn next_generation(g: u64) -> u64 {
    if g < u64::MAX {
        (g + 1) as u64
    } else {
        g
    }
}

/// The set's scope is a child of the process scope: it counts as cancelled
/// when either is.
pub open spec fn set_scope_cancelled(s: Orchestrator) -> bool {
    s.process_cancelled || s.set_cancelled
}

pub open spec fn begin_teardown(s: Orchestrator) -> (Orchestrator, LifecycleAction) {
    (
        Orchestrator { phase: Phase::TearingDown, set_cancelled: true, ..s },
        LifecycleAction::TearDown { generation: s.generation },
    )
}

/// The lifecycle protocol. A reload is a teardown followed by a start; one
/// that arrives while another is in progress is queued, and any number of
/// queued ones run as one. A failed start leaves nothing running and is not
/// retried with the previous configuration. Shutdown cancels the process
/// scope, never only the set's.
pub open spec fn lifecycle_next(s: Orchestrator, e: LifecycleEvent) -> (Orchestrator, LifecycleAction) {
    match e {
        LifecycleEvent::Start => if s.phase == Phase::Uninitialized && !s.process_cancelled {
            (
                Orchestrator { phase: Phase::Starting, set_cancelled: false, ..s },
                LifecycleAction::StartComponents { generation: s.generation },
            )
        } else {
            (s, LifecycleAction::Nothing)
        },
        LifecycleEvent::Started => if s.phase == Phase::Starting {
            let live = Orchestrator { phase: Phase::Live, ..s };
            if s.process_cancelled || s.reload_queued {
                begin_teardown(Orchestrator { reload_queued: false, ..live })
            } else {
                (live, LifecycleAction::Nothing)
            }
        } else {
            (s, LifecycleAction::Nothing)
        },
        LifecycleEvent::StartFailed => if s.phase == Phase::Starting {
            (
                Orchestrator { phase: Phase::Failed, reload_queued: false, ..s },
                LifecycleAction::ReportFailure,
            )
        } else {
            (s, LifecycleAction::Nothing)
        },
        LifecycleEvent::ReloadRequested => if s.process_cancelled {
            (s, LifecycleAction::Nothing)
        } else if s.phase == Phase::Live {
            begin_teardown(s)
        } else if s.phase == Phase::Starting || s.phase == Phase::TearingDown {
            (Orchestrator { reload_queued: true, ..s }, LifecycleAction::Nothing)
        } else {
            (s, LifecycleAction::Nothing)
        },
        LifecycleEvent::TornDown => if s.phase == Phase::TearingDown {
            if s.process_cancelled {
                (Orchestrator { phase: Phase::ShutDown, reload_queued: false, ..s }, LifecycleAction::Exit)
            } else {
                let g = next_generation(s.generation);
                (
                    Orchestrator {
                        phase: Phase::Starting,
                        generation: g,
                        set_cancelled: false,
                        reload_queued: false,
                        ..s
                    },
                    LifecycleAction::StartComponents { generation: g },
                )
            }
        } else {
            (s, LifecycleAction::Nothing)
        },
        LifecycleEvent::Shutdown => {
            let c = Orchestrator { process_cancelled: true, ..s };
            if s.phase == Phase::Live {
                begin_teardown(c)
            } else if s.phase == Phase::Uninitialized || s.phase == Phase::Failed {
                (Orchestrator { phase: Phase::ShutDown, ..c }, LifecycleAction::Exit)
            } else {
                (c, LifecycleAction::Nothing)
            }
        },
    }
}

impl Orchestrator {
    pub fn new() -> (r: Orchestrator)
        ensures
            r.phase == Phase::Uninitialized,
            r.generation == 0,
            !r.process_cancelled,
            !r.set_cancelled,
            !r.reload_queued,
    {
        Orchestrator {
            phase: Phase::Uninitialized,
            generation: 0,
            process_cancelled: false,
            set_cancelled: false,
            reload_queued: false,
        }
    }

    /// Whether the current set's scope is cancelled, directly or through the
    /// process scope.
    pub fn is_set_cancelled(&self) -> (r: bool)
        ensures
            r == set_scope_cancelled(*self),
    {
        self.process_cancelled || self.set_cancelled
    }

    fn teardown_now(&mut self) -> (r: LifecycleAction)
        ensures
            (*final(self), r) == begin_teardown(*old(self)),
    {
        self.phase = Phase::TearingDown;
        self.set_cancelled = true;
        LifecycleAction::TearDown { generation: self.generation }
    }

    /// Applies `lifecycle_next`.
    pub fn step(&mut self, e: LifecycleEvent) -> (r: LifecycleAction)
        ensures
            (*final(self), r) == lifecycle_next(*old(self), e),
    {
        match e {
            LifecycleEvent::Start => {
                if self.phase == Phase::Uninitialized && !self.process_cancelled {
                    self.phase = Phase::Starting;
                    self.set_cancelled = false;
                    LifecycleAction::StartComponents { generation: self.generation }
                } else {
                    LifecycleAction::Nothing
                }
            },
            LifecycleEvent::Started => {
                if self.phase == Phase::Starting {
                    self.phase = Phase::Live;
                    if self.process_cancelled || self.reload_queued {
                        self.reload_queued = false;
                        self.teardown_now()
                    } else {
                        LifecycleAction::Nothing
                    }
                } else {
                    LifecycleAction::Nothing
                }
            },
            LifecycleEvent::StartFailed => {
                if self.phase == Phase::Starting {
                    self.phase = Phase::Failed;
                    self.reload_queued = false;
                    LifecycleAction::ReportFailure
                } else {
                    LifecycleAction::Nothing
                }
            },
            LifecycleEvent::ReloadRequested => {
                if self.process_cancelled {
                    LifecycleAction::Nothing
                } else if self.phase == Phase::Live {
                    self.teardown_now()
                } else if self.phase == Phase::Starting || self.phase == Phase::TearingDown {
                    self.reload_queued = true;
                    LifecycleAction::Nothing
                } else {
                    LifecycleAction::Nothing
                }
            },
            LifecycleEvent::TornDown => {
                if self.phase == Phase::TearingDown {
                    if self.process_cancelled {
                        self.phase = Phase::ShutDown;
                        self.reload_queued = false;
                        LifecycleAction::Exit
                    } else {
                        let g = if self.generation < u64::MAX {
                            self.generation + 1
                        } else {
                            self.generation
                        };
                        self.phase = Phase::Starting;
                        self.generation = g;
                        self.set_cancelled = false;
                        self.reload_queued = false;
                        LifecycleAction::StartComponents { generation: g }
                    }
                } else {
                    LifecycleAction::Nothing
                }
            },
            LifecycleEvent::Shutdown => {
                self.process_cancelled = true;
                if self.phase == Phase::Live {
                    self.teardown_now()
                } else if self.phase == Phase::Uninitialized || self.phase == Phase::Failed {
                    self.phase = Phase::ShutDown;
                    LifecycleAction::Exit
                } else {
                    LifecycleAction::Nothing
                }
            },
        }
    }
}

/// Cancelling the process scope while a set is live leaves that set's scope
/// cancelled too, and from then on it stays cancelled whatever happens.
pub proof fn lemma_shutdown_reaches_live_set(s: Orchestrator, later: LifecycleEvent)
    requires
        s.phase == Phase::Live,
    ensures
        set_scope_cancelled(lifecycle_next(s, LifecycleEvent::Shutdown).0),
        lifecycle_next(s, LifecycleEvent::Shutdown).1 == (LifecycleAction::TearDown {
            generation: s.generation,
        }),
        set_scope_cancelled(lifecycle_next(lifecycle_next(s, LifecycleEvent::Shutdown).0, later).0),
{
}

/// The process scope, once cancelled, stays cancelled; a reload never
/// cancels it.
pub proof fn lemma_process_scope_monotone(s: Orchestrator, e: LifecycleEvent)
    ensures
        s.process_cancelled ==> lifecycle_next(s, e).0.process_cancelled,
        e != LifecycleEvent::Shutdown ==> lifecycle_next(s, e).0.process_cancelled == s.process_cancelled,
{
}

/// While a reload is in progress, another request starts nothing: no two
/// sets are ever started or torn down at once.
pub proof fn lemma_one_reload_in_flight(s: Orchestrator)
    requires
        s.phase == Phase::Starting || s.phase == Phase::TearingDown,
    ensures
        lifecycle_next(s, LifecycleEvent::ReloadRequested).1 == LifecycleAction::Nothing,
        lifecycle_next(s, LifecycleEvent::ReloadRequested).0.phase == s.phase,
{
}

} // verus!
