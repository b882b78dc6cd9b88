//! Collapsing bursts of configuration-change notifications into one reload.
use vstd::prelude::*;

verus! {

/// Length of the debounce window, in milliseconds.
pub const DEBOUNCE_WINDOW_MS: u64 = 500;

/// Kind of a file-system notification about the configuration's directory.
#[derive(Clone, Copy, Debug, PartialEq, Eq, Structural)]
pub enum FsChange {
    Create,
    Modify,
    Other,
}

/// A notification asks for a reload when it creates or modifies the
/// configuration file itself.
pub fn triggers_reload(kind: FsChange, touches_config: bool) -> (r: bool)
    ensures
        r == ((kind == FsChange::Create || kind == FsChange::Modify) && touches_config),
{
    match kind {
        FsChange::Create | FsChange::Modify => touches_config,
        FsChange::Other => false,
    }
}

#[derive(Clone, Copy, Debug, PartialEq, Eq, Structural)]
pub enum DebounceEvent {
    /// A reload was asked for at this time (ms).
    Trigger(u64),
    /// The clock reads this time (ms).
    Tick(u64),
}

/// Trailing-edge debouncing: the first request opens a window, later ones
/// inside it join it, and the reload runs once the window has passed, so the
/// configuration it reads is the one current at the window's end.
#[derive(Clone, Copy, Debug, PartialEq, Eq, Structural)]
pub struct ReloadDebouncer {
    pub window_ms: u64,
    /// Opening time of the current window, if a reload is pending.
    pub pending_since: Option<u64>,
}

pub open spec fn debounce_next(s: ReloadDebouncer, e: DebounceEvent) -> (ReloadDebouncer, bool) {
    match e {
        DebounceEvent::Trigger(t) => match s.pending_since {
            None => (ReloadDebouncer { pending_since: Some(t), ..s }, false),
            Some(_) => (s, false),
        },
        DebounceEvent::Tick(t) => match s.pending_since {
            Some(t0) => if t as int >= t0 as int + s.window_ms as int {
                (ReloadDebouncer { pending_since: None, ..s }, true)
            } else {
                (s, false)
            },
            None => (s, false),
        },
    }
}

/// State after a sequence of events, and how many reloads ran.
pub open spec fn debounce_run(s: ReloadDebouncer, events: Seq<DebounceEvent>) -> (ReloadDebouncer, nat)
    decreases events.len(),
{
    if events.len() == 0 {
        (s, 0)
    } else {
        let (mid, n) = debounce_run(s, events.drop_last());
        let (end, fired) = debounce_next(mid, events.last());
        (end, n + if fired {
            1nat
        } else {
            0nat
        })
    }
}

pub open spec fn event_time(e: DebounceEvent) -> u64 {
    match e {
        DebounceEvent::Trigger(t) => t,
        DebounceEvent::Tick(t) => t,
    }
}

impl ReloadDebouncer {
    pub fn new(window_ms: u64) -> (r: ReloadDebouncer)
        ensures
            r.window_ms == window_ms,
            r.pending_since is None,
    {
        ReloadDebouncer { window_ms, pending_since: None }
    }

    /// Applies `debounce_next`: true when the reload is to run now.
    pub fn step(&mut self, e: DebounceEvent) -> (r: bool)
        ensures
            (*final(self), r) == debounce_next(*old(self), e),
    {
        match e {
            DebounceEvent::Trigger(t) => {
                if self.pending_since.is_none() {
                    self.pending_since = Some(t);
                }
                false
            },
            DebounceEvent::Tick(t) => match self.pending_since {
                Some(t0) => {
                    if t >= t0 && t - t0 >= self.window_ms {
                        self.pending_since = None;
                        true
                    } else {
                        false
                    }
                },
                None => false,
            },
        }
    }

    /// When the pending reload is due, if one is pending.
    pub fn due_at(&self) -> (r: Option<u64>)
        ensures
            match self.pending_since {
                None => r is None,
                Some(t0) => r == Some(
                    if t0 as int + self.window_ms as int <= u64::MAX as int {
                        (t0 + self.window_ms) as u64
                    } else {
                        u64::MAX
                    },
                ),
            },
    {
        match self.pending_since {
            None => None,
            Some(t0) => {
                if t0 <= u64::MAX - self.window_ms {
                    Some(t0 + self.window_ms)
                } else {
                    Some(u64::MAX)
                }
            },
        }
    }
}

proof fn lemma_burst_pending(
    s: ReloadDebouncer,
    t0: u64,
    events: Seq<DebounceEvent>,
    j: int,
)
    requires
        s.pending_since is None,
        0 <= j <= events.len(),
        forall|i: int|
            0 <= i < events.len() ==> t0 <= event_time(#[trigger] events[i]) && event_time(events[i]) < t0
                + s.window_ms,
    ensures
        debounce_run(s, seq![DebounceEvent::Trigger(t0)] + events.subrange(0, j)) == (
            ReloadDebouncer { pending_since: Some(t0), ..s },
            0nat,
        ),
    decreases j,
{
    let prefix = seq![DebounceEvent::Trigger(t0)] + events.subrange(0, j);
    let open_window = ReloadDebouncer { pending_since: Some(t0), ..s };
    if j == 0 {
        assert(prefix.drop_last() =~= Seq::<DebounceEvent>::empty());
        assert(prefix.last() == DebounceEvent::Trigger(t0));
        assert(debounce_run(s, prefix.drop_last()) == (s, 0nat));
    } else {
        lemma_burst_pending(s, t0, events, j - 1);
        assert(prefix.drop_last() =~= seq![DebounceEvent::Trigger(t0)] + events.subrange(0, j - 1));
        assert(prefix.last() == events[j - 1]);
        let e = events[j - 1];
        assert(t0 <= event_time(e) && event_time(e) < t0 + s.window_ms);
        assert(debounce_next(open_window, e) == (open_window, false));
    }
}

/// Any number of reload requests inside one window, from its first request
/// on, with the clock read as often as one likes before the window closes,
/// run no reload; the first clock reading after the window runs exactly one.
pub proof fn lemma_burst_reloads_once(
    s: ReloadDebouncer,
    t0: u64,
    events: Seq<DebounceEvent>,
    end: u64,
)
    requires
        s.pending_since is None,
        forall|i: int|
            0 <= i < events.len() ==> t0 <= event_time(#[trigger] events[i]) && event_time(events[i]) < t0
                + s.window_ms,
        end as int >= t0 as int + s.window_ms as int,
    ensures
        debounce_run(s, seq![DebounceEvent::Trigger(t0)] + events).1 == 0,
        debounce_run(s, (seq![DebounceEvent::Trigger(t0)] + events).push(DebounceEvent::Tick(end))).1
            == 1,
        debounce_run(
            s,
            (seq![DebounceEvent::Trigger(t0)] + events).push(DebounceEvent::Tick(end)),
        ).0.pending_since is None,
{
    lemma_burst_pending(s, t0, events, events.len() as int);
    let burst = seq![DebounceEvent::Trigger(t0)] + events;
    assert(events.subrange(0, events.len() as int) =~= events);
    assert(burst.push(DebounceEvent::Tick(end)).drop_last() =~= burst);
}

} // verus!
