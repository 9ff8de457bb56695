//! Debounced watching of one directory: raw notifications are coalesced into
//! one batch per window. Only create events are kept; the first one opens a
//! window, and nothing comes out before the window's deadline. The caller
//! feeds raw events and the clock in; the OS watch itself stays outside.

use vstd::prelude::*;
use vstd::string::*;

verus! {

/// How long a window stays open after the create event that opened it.
pub const DEBOUNCE_WINDOW_SECS: u64 = 5;

/// The kind of a raw notification, as the OS watch reports it.
#[derive(Clone, Copy, PartialEq, Eq, Structural, Debug)]
pub enum RawEventKind {
    Access,
    Create,
    Modify,
    Remove,
    Other,
}

/// One raw notification, for stating laws about whole bursts.
pub struct RawEvent {
    pub kind: RawEventKind,
    pub path: Seq<char>,
    pub time: u64,
}

/// The one event kind the watcher forwards.
#[derive(Clone, Copy, PartialEq, Eq, Structural, Debug)]
pub enum FileEventKind {
    Created,
}

/// One forwarded notification: every path created within one window.
pub struct FileEvent {
    pub kind: FileEventKind,
    pub paths: Vec<String>,
}

/// The mathematical state of the debouncer.
#[verifier::ext_equal]
pub struct DebouncerView {
    pub pending: Seq<Seq<char>>,
    pub deadline: u64,
}

/// Coalesces create events into one pending batch per window.
pub struct Debouncer {
    pub pending: Vec<String>,
    pub deadline: u64,
}

impl View for Debouncer {
    type V = DebouncerView;

    open spec fn view(&self) -> DebouncerView {
        DebouncerView { pending: self.pending.deep_view(), deadline: self.deadline }
    }
}

/// One raw notification's effect: a create either opens a window or joins the
/// open one; every other kind is dropped.
pub open spec fn spec_observe(
    v: DebouncerView,
    kind: RawEventKind,
    path: Seq<char>,
    now: u64,
) -> DebouncerView {
    if kind == RawEventKind::Create {
        if v.pending.len() == 0 {
            DebouncerView { pending: seq![path], deadline: (now + DEBOUNCE_WINDOW_SECS) as u64 }
        } else {
            DebouncerView { pending: v.pending.push(path), deadline: v.deadline }
        }
    } else {
        v
    }
}

/// Whether a poll at `now` hands the pending batch out.
pub open spec fn spec_should_emit(v: DebouncerView, now: u64) -> bool {
    v.pending.len() > 0 && now >= v.deadline
}

impl Debouncer {
    pub fn new() -> (d: Debouncer)
        ensures
            d@.pending.len() == 0,
            d@.deadline == 0,
    {
        Debouncer { pending: Vec::new(), deadline: 0 }
    }

    /// Take one raw notification in.
    pub fn observe(&mut self, kind: RawEventKind, path: String, now: u64)
        requires
            now <= u64::MAX - DEBOUNCE_WINDOW_SECS,
        ensures
            final(self)@ == spec_observe(old(self)@, kind, path@, now),
    {
        match kind {
            RawEventKind::Create => {
                if self.pending.len() == 0 {
                    self.deadline = now + DEBOUNCE_WINDOW_SECS;
                }
                self.pending.push(path);
                proof {
                    assert(self@ =~= spec_observe(old(self)@, kind, path@, now));
                }
            },
            _ => {},
        }
    }

    /// Hand the batch out once the window has closed; nothing comes out
    /// earlier, and nothing comes out of an empty window.
    pub fn poll(&mut self, now: u64) -> (r: Option<FileEvent>)
        ensures
            spec_should_emit(old(self)@, now) ==> (r matches Some(ev)
                && ev.kind == FileEventKind::Created
                && ev.paths.deep_view() == old(self)@.pending
                && final(self)@.pending.len() == 0),
            !spec_should_emit(old(self)@, now) ==> r is None && final(self)@ == old(self)@,
    {
        if self.pending.len() > 0 && now >= self.deadline {
            let mut out: Vec<String> = Vec::new();
            core::mem::swap(&mut out, &mut self.pending);
            Some(FileEvent { kind: FileEventKind::Created, paths: out })
        } else {
            None
        }
    }
}

/// The line logged when the underlying watch reports an error; the watch
/// itself goes on.
pub fn watch_error_line(detail: &str) -> (r: String)
    ensures
        r@ == "File watch error: "@ + detail@,
{
    let mut out = "File watch error: ".to_owned();
    out.append(detail);
    out
}

/// A whole burst of raw notifications taken in, first to last.
pub open spec fn spec_absorb(v: DebouncerView, events: Seq<RawEvent>) -> DebouncerView
    decreases events.len(),
{
    if events.len() == 0 {
        v
    } else {
        spec_absorb(
            spec_observe(v, events[0].kind, events[0].path, events[0].time),
            events.drop_first(),
        )
    }
}

proof fn lemma_absorb_creates_append(v: DebouncerView, events: Seq<RawEvent>)
    requires
        v.pending.len() > 0,
        forall|i: int| 0 <= i < events.len() ==> (#[trigger] events[i]).kind
            == RawEventKind::Create,
    ensures
        spec_absorb(v, events).pending =~= v.pending + events.map_values(|e: RawEvent| e.path),
        spec_absorb(v, events).deadline == v.deadline,
    decreases events.len(),
{
    if events.len() == 0 {
        assert(spec_absorb(v, events).pending =~= v.pending + events.map_values(
            |e: RawEvent| e.path,
        ));
    } else {
        let v1 = spec_observe(v, events[0].kind, events[0].path, events[0].time);
        lemma_absorb_creates_append(v1, events.drop_first());
        assert(spec_absorb(v, events).pending =~= v.pending + events.map_values(
            |e: RawEvent| e.path,
        ));
    }
}

/// Debounce coalescing: create events arriving while one window is open come
/// out as a single batch holding all their paths in arrival order — one
/// batch, not one per event — and no poll before the window's deadline emits
/// anything.
pub proof fn lemma_debounce_coalescing(v0: DebouncerView, events: Seq<RawEvent>, now: u64)
    requires
        v0.pending.len() == 0,
        events.len() > 0,
        forall|i: int| 0 <= i < events.len() ==> (#[trigger] events[i]).kind
            == RawEventKind::Create,
        events[0].time <= u64::MAX - DEBOUNCE_WINDOW_SECS,
        now >= events[0].time + DEBOUNCE_WINDOW_SECS,
    ensures
        spec_absorb(v0, events).pending =~= events.map_values(|e: RawEvent| e.path),
        spec_should_emit(spec_absorb(v0, events), now),
        forall|t: u64|
            t < events[0].time + DEBOUNCE_WINDOW_SECS ==> !spec_should_emit(
                spec_absorb(v0, events),
                t,
            ),
{
    let v1 = spec_observe(v0, events[0].kind, events[0].path, events[0].time);
    lemma_absorb_creates_append(v1, events.drop_first());
    assert(spec_absorb(v0, events).pending =~= events.map_values(|e: RawEvent| e.path));
}

} // verus!
