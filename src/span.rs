//! The per-thread span stack: it maps the enter and exit events of a general instrumentation
//! model onto the backend's strictly nested zones, and reports discipline violations.
use vstd::prelude::*;

verus! {

/// A growable LIFO sequence, owned by one thread.
pub struct VecCell<T> {
    items: Vec<T>,
}

impl<T> View for VecCell<T> {
    type V = Seq<T>;

    closed spec fn view(&self) -> Seq<T> {
        self.items@
    }
}

impl<T> VecCell<T> {
    /// An empty sequence.
    pub fn new() -> (r: Self)
        ensures
            r@ == Seq::<T>::empty(),
    {
        VecCell { items: Vec::new() }
    }

    /// Adds an item on top.
    pub fn push(&mut self, item: T)
        ensures
            final(self)@ == old(self)@.push(item),
    {
        self.items.push(item);
    }

    /// Takes the top item off, if there is one.
    pub fn pop(&mut self) -> (r: Option<T>)
        ensures
            old(self)@.len() == 0 ==> r is None && final(self)@ == old(self)@,
            old(self)@.len() > 0 ==> r == Some(old(self)@.last()) && final(self)@ == old(self)@.drop_last(),
    {
        self.items.pop()
    }

    /// How many items there are.
    pub fn len(&self) -> (r: usize)
        ensures
            r == self@.len(),
    {
        self.items.len()
    }
}

/// The handle that the backend returns when a zone begins, needed to end that zone.
#[derive(Clone, Copy, Debug, PartialEq, Eq, Structural)]
pub struct ZoneContext {
    pub id: u32,
    pub active: i32,
}

/// A discipline violation, reported through the backend's message channel.
#[derive(Clone, Copy, Debug, PartialEq, Eq, Structural)]
pub enum Diagnostic {
    /// The span that exited is not the innermost one entered on this thread.
    ExitedOutOfOrder,
    /// A span exited on a thread whose stack is empty.
    NothingToExit,
}

/// The colour, as RGBA, in which diagnostics are emitted.
pub const DIAGNOSTIC_COLOR: u32 = 0xFF000000;

impl Diagnostic {
    /// The text of the message that reports this violation.
    pub fn message(&self) -> (r: &'static str)
        ensures
            *self == Diagnostic::ExitedOutOfOrder ==> r@ == (
            "Tracing spans exited out of order! Trace may not be accurate for this span stack.")@,
            *self == Diagnostic::NothingToExit ==> r@ == (
            "Exiting a tracing span, but got nothing on the tracy span stack!")@,
    {
        match self {
            Diagnostic::ExitedOutOfOrder => {
                "Tracing spans exited out of order! Trace may not be accurate for this span stack."
            },
            Diagnostic::NothingToExit => {
                "Exiting a tracing span, but got nothing on the tracy span stack!"
            },
        }
    }
}

/// One entry of a span stack: the backend zone and the id of the span that entered it.
pub type StackEntry = (ZoneContext, u64);

/// What the caller does with the backend after an exit.
#[derive(Clone, Copy, Debug, PartialEq, Eq, Structural)]
pub struct ExitOutcome {
    /// The zone to end, if any.
    pub end_zone: Option<ZoneContext>,
    /// The violation to report, if any.
    pub diagnostic: Option<Diagnostic>,
}

/// The outcome of an exit of span `id` on a stack.
pub open spec fn exit_outcome(stack: Seq<StackEntry>, id: u64) -> ExitOutcome {
    if stack.len() == 0 {
        ExitOutcome { end_zone: None, diagnostic: Some(Diagnostic::NothingToExit) }
    } else {
        ExitOutcome {
            end_zone: Some(stack.last().0),
            diagnostic: if stack.last().1 == id {
                None
            } else {
                Some(Diagnostic::ExitedOutOfOrder)
            },
        }
    }
}

/// The stack after an exit.
pub open spec fn after_exit(stack: Seq<StackEntry>) -> Seq<StackEntry> {
    if stack.len() == 0 {
        stack
    } else {
        stack.drop_last()
    }
}

/// The span stack of one thread.
pub struct SpanStack {
    frames: VecCell<StackEntry>,
}

impl View for SpanStack {
    type V = Seq<StackEntry>;

    closed spec fn view(&self) -> Seq<StackEntry> {
        self.frames@
    }
}

impl SpanStack {
    /// An empty stack.
    pub fn new() -> (r: Self)
        ensures
            r@ == Seq::<StackEntry>::empty(),
    {
        SpanStack { frames: VecCell::new() }
    }

    /// Records that span `id` entered, with the zone that the backend began for it.
    pub fn enter(&mut self, zone: ZoneContext, id: u64)
        ensures
            final(self)@ == old(self)@.push((zone, id)),
    {
        self.frames.push((zone, id));
    }

    /// Records that span `id` exited: pops the top entry, if any, and says which zone to end and
    /// which violation to report. The popped zone is ended even when its span is not `id`, so
    /// that the backend's zones stay balanced.
    pub fn exit(&mut self, id: u64) -> (r: ExitOutcome)
        ensures
            r == exit_outcome(old(self)@, id),
            final(self)@ == after_exit(old(self)@),
    {
        match self.frames.pop() {
            Some(frame) => {
                let (zone, span_id) = frame;
                let diagnostic = if span_id == id {
                    None
                } else {
                    Some(Diagnostic::ExitedOutOfOrder)
                };
                ExitOutcome { end_zone: Some(zone), diagnostic }
            },
            None => ExitOutcome { end_zone: None, diagnostic: Some(Diagnostic::NothingToExit) },
        }
    }

    /// How many spans are open on this stack.
    pub fn depth(&self) -> (r: usize)
        ensures
            r == self@.len(),
    {
        self.frames.len()
    }
}


/// An event that a thread's stack receives.
#[derive(Clone, Copy, Debug, PartialEq, Eq, Structural)]
pub enum SpanEvent {
    /// Span `id` entered and the backend began this zone for it.
    Enter(ZoneContext, u64),
    /// Span `id` exited.
    Exit(u64),
}

/// The stack after one event.
pub open spec fn step(stack: Seq<StackEntry>, ev: SpanEvent) -> Seq<StackEntry> {
    match ev {
        SpanEvent::Enter(zone, id) => stack.push((zone, id)),
        SpanEvent::Exit(_) => after_exit(stack),
    }
}

/// The stack of a thread after a sequence of events, starting empty.
pub open spec fn replay(evs: Seq<SpanEvent>) -> Seq<StackEntry>
    decreases evs.len(),
{
    if evs.len() == 0 {
        Seq::empty()
    } else {
        step(replay(evs.drop_last()), evs.last())
    }
}

/// How many zones the events begin.
pub open spec fn began(evs: Seq<SpanEvent>) -> nat
    decreases evs.len(),
{
    if evs.len() == 0 {
        0
    } else {
        began(evs.drop_last()) + if evs.last() is Enter {
            1nat
        } else {
            0nat
        }
    }
}

/// How many zones the exits among the events end.
pub open spec fn ended(evs: Seq<SpanEvent>) -> nat
    decreases evs.len(),
{
    if evs.len() == 0 {
        0
    } else {
        ended(evs.drop_last()) + match evs.last() {
            SpanEvent::Exit(id) => if exit_outcome(replay(evs.drop_last()), id).end_zone is Some {
                1nat
            } else {
                0nat
            },
            SpanEvent::Enter(_, _) => 0nat,
        }
    }
}

/// How many violations the exits among the events report.
pub open spec fn reported(evs: Seq<SpanEvent>) -> nat
    decreases evs.len(),
{
    if evs.len() == 0 {
        0
    } else {
        reported(evs.drop_last()) + match evs.last() {
            SpanEvent::Exit(id) => if exit_outcome(replay(evs.drop_last()), id).diagnostic is Some {
                1nat
            } else {
                0nat
            },
            SpanEvent::Enter(_, _) => 0nat,
        }
    }
}

/// The ids of the spans that a strictly nested program has open after the events, or `None`
/// once some exit names a span other than the innermost open one.
pub open spec fn open_scopes(evs: Seq<SpanEvent>) -> Option<Seq<u64>>
    decreases evs.len(),
{
    if evs.len() == 0 {
        Some(Seq::empty())
    } else {
        match open_scopes(evs.drop_last()) {
            None => None,
            Some(ids) => match evs.last() {
                SpanEvent::Enter(_, id) => Some(ids.push(id)),
                SpanEvent::Exit(id) => if ids.len() > 0 && ids.last() == id {
                    Some(ids.drop_last())
                } else {
                    None
                },
            },
        }
    }
}

/// Events in which every exit names the innermost open span and every span that entered exits.
pub open spec fn properly_nested(evs: Seq<SpanEvent>) -> bool {
    open_scopes(evs) == Some(Seq::<u64>::empty())
}

/// The span ids of a stack, bottom first.
pub open spec fn frame_ids(stack: Seq<StackEntry>) -> Seq<u64> {
    stack.map_values(|f: StackEntry| f.1)
}

/// Whatever the order of the events, every zone that the backend began for this thread has
/// either been ended exactly once or is still on the stack.
pub proof fn lemma_zones_balanced(evs: Seq<SpanEvent>)
    ensures
        ended(evs) + replay(evs).len() == began(evs),
    decreases evs.len(),
{
    if evs.len() > 0 {
        lemma_zones_balanced(evs.drop_last());
    }
}

proof fn lemma_nested_prefix(evs: Seq<SpanEvent>)
    requires
        open_scopes(evs) is Some,
    ensures
        frame_ids(replay(evs)) == open_scopes(evs)->Some_0,
        reported(evs) == 0,
    decreases evs.len(),
{
    if evs.len() == 0 {
        assert(frame_ids(replay(evs)) =~= Seq::<u64>::empty());
    } else {
        let prefix = evs.drop_last();
        lemma_nested_prefix(prefix);
        let before = replay(prefix);
        let ids = open_scopes(prefix)->Some_0;
        match evs.last() {
            SpanEvent::Enter(zone, id) => {
                assert(frame_ids(before.push((zone, id))) =~= ids.push(id));
            },
            SpanEvent::Exit(id) => {
                assert(before.len() == ids.len());
                assert(before.last().1 == ids.last());
                assert(frame_ids(before.drop_last()) =~= ids.drop_last());
            },
        }
    }
}

/// On a properly nested sequence of events the stack ends empty, no violation is reported, and
/// every zone that began has ended.
pub proof fn lemma_nested_is_clean(evs: Seq<SpanEvent>)
    requires
        properly_nested(evs),
    ensures
        replay(evs) == Seq::<StackEntry>::empty(),
        reported(evs) == 0,
        ended(evs) == began(evs),
{
    lemma_nested_prefix(evs);
    lemma_zones_balanced(evs);
    assert(frame_ids(replay(evs)).len() == 0);
    assert(replay(evs) =~= Seq::<StackEntry>::empty());
}

} // verus!
