//! The change-watch decision logic: which reported filesystem events
//! concern the watched file, which event kinds count as changes, and
//! the debounce gate that limits how often the reload callback fires.
//! The platform watcher and its event loop live outside the library and
//! feed these functions plain values.

use vstd::prelude::*;

verus! {

/// The kind of a reported filesystem event, reduced to what the watch
/// logic distinguishes.
#[derive(Debug, Clone, Copy, PartialEq, Eq)]
pub enum ChangeKind {
    Modify,
    Create,
    Remove,
    Other,
}

/// Whether an event kind counts as a change of the watched file:
/// modifications, creations and removals do; everything else (metadata,
/// access, unclassified) is ignored.
pub open spec fn watched_kind(kind: ChangeKind) -> bool {
    kind is Modify || kind is Create || kind is Remove
}

/// Decides whether an event kind counts as a change.
pub fn is_watched_kind(kind: ChangeKind) -> (r: bool)
    ensures
        r == watched_kind(kind),
{
    match kind {
        ChangeKind::Modify => true,
        ChangeKind::Create => true,
        ChangeKind::Remove => true,
        ChangeKind::Other => false,
    }
}

/// Ghost model of one path reported by an event: the path as reported
/// and, when resolution succeeded, its canonical form.
pub struct PathReportModel {
    pub raw: Seq<char>,
    pub canonical: Option<Seq<char>>,
}

/// One path reported by a filesystem event, together with the result of
/// canonicalising it (`None` when resolution failed).
#[derive(Debug, Clone, PartialEq, Eq)]
pub struct PathReport {
    pub raw: String,
    pub canonical: Option<String>,
}

impl View for PathReport {
    type V = PathReportModel;

    open spec fn view(&self) -> PathReportModel {
        PathReportModel {
            raw: self.raw@,
            canonical: match self.canonical {
                Some(c) => Some(c@),
                None => None,
            },
        }
    }
}

/// Whether one reported path designates the watched target: its
/// canonical form equals the target's canonical form, or — when it
/// could not be resolved — the path itself equals the target's
/// canonical or original spelling.
pub open spec fn report_matches(
    report: PathReportModel,
    canonical: Seq<char>,
    original: Seq<char>,
) -> bool {
    match report.canonical {
        Some(c) => c == canonical,
        None => report.raw == canonical || report.raw == original,
    }
}

/// Decides whether an event touching the given paths concerns the
/// watched target: at least one reported path must designate it.
pub fn is_relevant_event(reports: &Vec<PathReport>, canonical: &String, original: &String) -> (r:
    bool)
    ensures
        r == exists|i: int|
            0 <= i < reports@.len() && report_matches(#[trigger] reports@[i]@, canonical@,
            original@),
{
    let mut i: usize = 0;
    while i < reports.len()
        invariant
            0 <= i <= reports@.len(),
            forall|j: int|
                0 <= j < i ==> !report_matches(#[trigger] reports@[j]@, canonical@, original@),
        decreases reports@.len() - i,
    {
        let matched = match &reports[i].canonical {
            Some(c) => *c == *canonical,
            None => reports[i].raw == *canonical || reports[i].raw == *original,
        };
        if matched {
            assert(report_matches(reports@[i as int]@, canonical@, original@));
            assert(exists|k: int|
                0 <= k < reports@.len() && report_matches(#[trigger] reports@[k]@, canonical@,
                original@));
            return true;
        }
        i = i + 1;
    }
    false
}

/// Ghost model of the debounce gate.
pub struct GateModel {
    pub interval_ms: nat,
    pub primed: bool,
    pub last_fire_ms: nat,
}

/// Whether an accepted event passes the debounce window at time
/// `now_ms`: the very first accepted event always fires; afterwards an
/// event fires only when at least the debounce interval has passed
/// since the previous fire.
pub open spec fn gate_fires(gate: GateModel, now_ms: nat) -> bool {
    !gate.primed || now_ms >= gate.last_fire_ms + gate.interval_ms
}

/// The callback fires at most once per debounce window: once primed,
/// an accepted event fires exactly when the full interval has passed
/// since the previous fire, and is suppressed strictly inside it.
pub proof fn lemma_debounce_window(gate: GateModel, now_ms: nat)
    requires
        gate.primed,
    ensures
        gate_fires(gate, now_ms) <==> now_ms >= gate.last_fire_ms + gate.interval_ms,
{
}

/// The debounce gate: suppresses accepted events that arrive within the
/// debounce window measured from the previous fire.  Suppression is
/// hard — a suppressed event is dropped, not queued.
#[derive(Debug, Clone, PartialEq, Eq)]
pub struct DebounceGate {
    interval_ms: u64,
    primed: bool,
    last_fire_ms: u64,
}

impl View for DebounceGate {
    type V = GateModel;

    closed spec fn view(&self) -> GateModel {
        GateModel {
            interval_ms: self.interval_ms as nat,
            primed: self.primed,
            last_fire_ms: self.last_fire_ms as nat,
        }
    }
}

impl DebounceGate {
    /// A fresh gate: the first accepted event will fire immediately.
    pub fn new(interval_ms: u64) -> (g: DebounceGate)
        ensures
            g@.interval_ms == interval_ms as nat,
            !g@.primed,
            g@.last_fire_ms == 0,
    {
        DebounceGate { interval_ms, primed: false, last_fire_ms: 0 }
    }

    /// Takes one event: whether it concerned the watched file, its
    /// kind, and the time it arrived (milliseconds on a monotonic
    /// clock).  Returns whether the callback must fire now.  The
    /// debounce memory moves only on a fire; filtered and suppressed
    /// events leave it untouched.
    pub fn observe(&mut self, relevant: bool, kind: ChangeKind, now_ms: u64) -> (fire: bool)
        ensures
            fire == (relevant && watched_kind(kind) && gate_fires(old(self)@, now_ms as nat)),
            fire ==> final(self)@.primed && final(self)@.last_fire_ms == now_ms as nat,
            fire ==> final(self)@.interval_ms == old(self)@.interval_ms,
            !fire ==> final(self)@ == old(self)@,
    {
        if !relevant {
            return false;
        }
        if !is_watched_kind(kind) {
            return false;
        }
        let open_gate = if !self.primed {
            true
        } else if now_ms >= self.last_fire_ms {
            now_ms - self.last_fire_ms >= self.interval_ms
        } else {
            false
        };
        if open_gate {
            self.primed = true;
            self.last_fire_ms = now_ms;
            true
        } else {
            false
        }
    }
}

} // verus!
