//! The decisions of one readback cycle on the rendering side.
//!
//! The caller owns the device: it performs each `Action` that `step` hands
//! back and reports what came of it as the next `Event`. The cycle asks for
//! a map only from `Idle`, so at most one map request is outstanding on the
//! staging buffer; it asks for `Unmap` only once the caller has reported the
//! mapped view released; and a failed map ends the cycle with no unmap and
//! no values.
use vstd::prelude::*;
use crate::words::{decode_words, decoded, ByteOrder};

verus! {

/// Where the staging buffer stands in the cycle.
#[derive(Clone, Copy, Debug, PartialEq, Eq, Structural)]
pub enum Stage {
    /// No map request is outstanding; a new cycle may begin.
    Idle,
    /// A map request was issued and has not resolved yet.
    Pending,
    /// The buffer is mapped; the caller may hold a view of it.
    Mapped,
    /// The view was released and the unmap has been asked for.
    Unmapping,
}

/// What the completion bridge held when it was checked.
#[derive(Clone, Copy, Debug, PartialEq, Eq, Structural)]
pub enum Signal {
    /// No outcome has arrived yet.
    Waiting,
    /// The map request succeeded.
    Mapped,
    /// The map request failed.
    Failed,
}

/// Why a render tick does not start a cycle.
#[derive(Clone, Copy, Debug, PartialEq, Eq, Structural)]
pub enum SkipReason {
    /// The staging buffer does not exist yet.
    ResourceUnavailable,
    /// A previous cycle still holds the staging buffer.
    Busy,
}

/// What the caller reports.
#[derive(Debug)]
pub enum Event {
    /// A render tick starts; `buffer_ready` tells whether the staging buffer exists.
    Begin { buffer_ready: bool },
    /// The completion bridge was checked after servicing the device.
    Checked(Signal),
    /// The mapped bytes were copied out and the view was dropped.
    ViewRead(Vec<u8>),
    /// The staging buffer was unmapped.
    Unmapped,
}

/// What the caller is to do next.
#[derive(Debug)]
pub enum Action {
    /// Start no cycle on this tick.
    Skip(SkipReason),
    /// Ask for the staging buffer to be mapped for reading.
    RequestMap,
    /// Service pending device work, then check the completion bridge.
    ServiceDevice,
    /// Copy the mapped bytes out inside a scope that drops the view.
    ReadView,
    /// Unmap the staging buffer; no view of it is live.
    Unmap,
    /// Hand these values to the consuming side.
    Deliver(Vec<u32>),
    /// The map failed: report it; the buffer stays unmapped.
    Abort,
    /// The event does not belong to this stage; nothing to do.
    Ignore,
}

/// The state of one staging buffer's readback.
pub struct Readback {
    stage: Stage,
    order: ByteOrder,
    held: Vec<u32>,
}

/// What a `Readback` stands for: its stage, the byte order its buffer is
/// decoded in, and the values decoded and not yet handed out.
pub struct ReadbackView {
    pub stage: Stage,
    pub order: ByteOrder,
    pub held: Seq<u32>,
}

impl View for Readback {
    type V = ReadbackView;

    closed spec fn view(&self) -> ReadbackView {
        ReadbackView { stage: self.stage, order: self.order, held: self.held@ }
    }
}

/// The stage after `e` arrives in stage `s`.
pub open spec fn next_stage(s: Stage, e: Event) -> Stage {
    match s {
        Stage::Idle => match e {
            Event::Begin { buffer_ready } => if buffer_ready { Stage::Pending } else { Stage::Idle },
            _ => Stage::Idle,
        },
        Stage::Pending => match e {
            Event::Checked(Signal::Mapped) => Stage::Mapped,
            Event::Checked(Signal::Failed) => Stage::Idle,
            _ => Stage::Pending,
        },
        Stage::Mapped => match e {
            Event::ViewRead(_) => Stage::Unmapping,
            _ => Stage::Mapped,
        },
        Stage::Unmapping => match e {
            Event::Unmapped => Stage::Idle,
            _ => Stage::Unmapping,
        },
    }
}

/// Whether `a` is the answer to `e` in stage `s`, where `held` are the
/// values decoded and not yet handed out.
pub open spec fn answers(a: Action, s: Stage, held: Seq<u32>, e: Event) -> bool {
    match e {
        Event::Begin { buffer_ready } => if s == Stage::Idle {
            if buffer_ready {
                a is RequestMap
            } else {
                a matches Action::Skip(SkipReason::ResourceUnavailable)
            }
        } else {
            a matches Action::Skip(SkipReason::Busy)
        },
        Event::Checked(sig) => if s == Stage::Pending {
            match sig {
                Signal::Waiting => a is ServiceDevice,
                Signal::Mapped => a is ReadView,
                Signal::Failed => a is Abort,
            }
        } else {
            a is Ignore
        },
        Event::ViewRead(_) => if s == Stage::Mapped {
            a is Unmap
        } else {
            a is Ignore
        },
        Event::Unmapped => if s == Stage::Unmapping {
            a is Deliver && a->Deliver_0@ == held
        } else {
            a is Ignore
        },
    }
}

/// The values held after `e` arrives in stage `s`.
pub open spec fn next_held(s: Stage, held: Seq<u32>, e: Event, order: ByteOrder) -> Seq<u32> {
    match e {
        Event::ViewRead(bytes) => if s == Stage::Mapped { decoded(bytes@, order) } else { held },
        Event::Unmapped => if s == Stage::Unmapping { Seq::empty() } else { held },
        _ => held,
    }
}

/// Unmap is asked for only in answer to the report that the mapped view was
/// released, and never while the buffer may still be viewed.
pub proof fn lemma_unmap_only_after_release(a: Action, s: Stage, held: Seq<u32>, e: Event)
    requires
        answers(a, s, held, e),
        a is Unmap,
    ensures
        s == Stage::Mapped,
        e is ViewRead,
        next_stage(s, e) == Stage::Unmapping,
{
}

/// A failed map ends the cycle at once: the answer is `Abort`, the stage goes
/// back to `Idle`, and from `Idle` no event leads to an unmap or to delivered
/// values before a new map has been asked for.
pub proof fn lemma_failed_map_ends_cycle(a: Action, held: Seq<u32>, e: Event, b: Action)
    requires
        answers(a, Stage::Pending, held, Event::Checked(Signal::Failed)),
        answers(b, Stage::Idle, held, e),
    ensures
        a is Abort,
        next_stage(Stage::Pending, Event::Checked(Signal::Failed)) == Stage::Idle,
        !(b is Unmap),
        !(b is Deliver),
        next_stage(Stage::Idle, e) == Stage::Idle || b is RequestMap,
{
}

/// The buffer becomes mapped only when the bridge reports a successful map
/// for the outstanding request.
pub proof fn lemma_mapped_only_on_success(s: Stage, e: Event)
    requires
        s != Stage::Mapped,
        next_stage(s, e) == Stage::Mapped,
    ensures
        s == Stage::Pending,
        e matches Event::Checked(Signal::Mapped),
{
}

/// Values are handed out only once the unmap has been reported, and they are
/// the values decoded from the view.
pub proof fn lemma_delivery_after_unmap(a: Action, s: Stage, held: Seq<u32>, e: Event)
    requires
        answers(a, s, held, e),
        a is Deliver,
    ensures
        s == Stage::Unmapping,
        e is Unmapped,
        a->Deliver_0@ == held,
        next_stage(s, e) == Stage::Idle,
{
}

/// After a failed map the buffer is usable again: the next tick on which the
/// buffer exists asks for a new map.
pub proof fn lemma_cycle_after_failure(held: Seq<u32>, a: Action)
    requires
        answers(a, next_stage(Stage::Pending, Event::Checked(Signal::Failed)), held, Event::Begin { buffer_ready: true }),
    ensures
        a is RequestMap,
        next_stage(next_stage(Stage::Pending, Event::Checked(Signal::Failed)), Event::Begin { buffer_ready: true })
            == Stage::Pending,
{
}

/// A map is asked for only from `Idle`, so at most one map request is
/// outstanding on the buffer at a time.
pub proof fn lemma_one_outstanding_request(a: Action, s: Stage, held: Seq<u32>, e: Event)
    requires
        answers(a, s, held, e),
        a is RequestMap,
    ensures
        s == Stage::Idle,
        next_stage(s, e) == Stage::Pending,
{
}

/// Values are delivered only in answer to the unmap, and they are the words
/// decoded from the bytes of the view: as many as the bytes hold whole
/// words.
pub proof fn lemma_delivered_values(bytes: Seq<u8>, v: Vec<u8>, held: Seq<u32>, order: ByteOrder)
    requires
        v@ == bytes,
    ensures
        next_held(Stage::Mapped, held, Event::ViewRead(v), order) == decoded(bytes, order),
        decoded(bytes, order).len() == bytes.len() / 4,
{
}

impl Readback {
    /// A readback in `Idle` for a buffer whose words are in byte order `order`.
    pub fn new(order: ByteOrder) -> (r: Readback)
        ensures
            r@.stage == Stage::Idle,
            r@.order == order,
            r@.held == Seq::<u32>::empty(),
    {
        Readback { stage: Stage::Idle, order, held: Vec::new() }
    }

    /// The current stage.
    pub fn stage(&self) -> (s: Stage)
        ensures
            s == self@.stage,
    {
        self.stage
    }

    /// Takes in what the caller reports and says what it is to do next.
    pub fn step(&mut self, event: Event) -> (a: Action)
        ensures
            final(self)@.order == old(self)@.order,
            final(self)@.stage == next_stage(old(self)@.stage, event),
            final(self)@.held == next_held(old(self)@.stage, old(self)@.held, event, old(self)@.order),
            answers(a, old(self)@.stage, old(self)@.held, event),
    {
        match event {
            Event::Begin { buffer_ready } => {
                if self.stage != Stage::Idle {
                    Action::Skip(SkipReason::Busy)
                } else if buffer_ready {
                    self.stage = Stage::Pending;
                    Action::RequestMap
                } else {
                    Action::Skip(SkipReason::ResourceUnavailable)
                }
            },
            Event::Checked(sig) => {
                if self.stage != Stage::Pending {
                    Action::Ignore
                } else {
                    match sig {
                        Signal::Waiting => Action::ServiceDevice,
                        Signal::Mapped => {
                            self.stage = Stage::Mapped;
                            Action::ReadView
                        },
                        Signal::Failed => {
                            self.stage = Stage::Idle;
                            Action::Abort
                        },
                    }
                }
            },
            Event::ViewRead(bytes) => {
                if self.stage != Stage::Mapped {
                    Action::Ignore
                } else {
                    self.held = decode_words(bytes.as_slice(), self.order);
                    self.stage = Stage::Unmapping;
                    Action::Unmap
                }
            },
            Event::Unmapped => {
                if self.stage != Stage::Unmapping {
                    Action::Ignore
                } else {
                    let mut values: Vec<u32> = Vec::new();
                    std::mem::swap(&mut values, &mut self.held);
                    self.stage = Stage::Idle;
                    Action::Deliver(values)
                }
            },
        }
    }
}

} // verus!
