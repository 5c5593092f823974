//! The three pipeline handles that describe one nested context, and how
//! navigations and confirmations move them.
use vstd::prelude::*;
use crate::ids::PipelineId;

verus! {

/// Why the orchestrator reports a new pipeline for a context.
#[derive(Clone, Copy, PartialEq, Eq, Structural, Debug)]
pub enum UpdatePipelineIdReason {
    /// A navigation that this context started has committed.
    Navigation,
    /// A history traversal (back, forward) that the context did not start.
    Traversal,
}

/// The pipeline state of one nested context.
#[derive(Clone, Copy, PartialEq, Eq, Structural, Debug)]
pub struct PipelineRecord {
    /// The pipeline considered live.
    pub current: Option<PipelineId>,
    /// The pipeline of a navigation that was requested and not yet confirmed.
    pub pending: Option<PipelineId>,
    /// The pipeline made as the context's initial blank document.
    pub about_blank: Option<PipelineId>,
}

/// The record with no handle set.
pub open spec fn empty_record() -> PipelineRecord {
    PipelineRecord { current: None, pending: None, about_blank: None }
}

/// The record of a context whose first pipeline is `p`.
pub open spec fn initial_record(p: PipelineId) -> PipelineRecord {
    PipelineRecord { current: Some(p), pending: Some(p), about_blank: Some(p) }
}

/// A navigation to `p` was requested: it supersedes any pending one.
pub open spec fn navigation_begun(r: PipelineRecord, p: PipelineId) -> PipelineRecord {
    PipelineRecord { pending: Some(p), ..r }
}

/// Whether a confirmation of `p` for `reason` applies to `r`: a navigation
/// only when `p` is the one pending, a traversal always.
pub open spec fn confirmation_applies(r: PipelineRecord, p: PipelineId, reason: UpdatePipelineIdReason) -> bool {
    match reason {
        UpdatePipelineIdReason::Navigation => r.pending == Some(p),
        UpdatePipelineIdReason::Traversal => true,
    }
}

/// The record after a confirmation of `p` for `reason`; unchanged when it
/// does not apply.
pub open spec fn confirmed(r: PipelineRecord, p: PipelineId, reason: UpdatePipelineIdReason) -> PipelineRecord {
    if !confirmation_applies(r, p, reason) {
        r
    } else {
        match reason {
            UpdatePipelineIdReason::Navigation => PipelineRecord { current: Some(p), pending: None, ..r },
            UpdatePipelineIdReason::Traversal => PipelineRecord { current: Some(p), ..r },
        }
    }
}

/// The record after teardown: every handle forgotten.
pub open spec fn cleared(r: PipelineRecord) -> PipelineRecord {
    PipelineRecord { current: None, pending: None, about_blank: None }
}

/// Whether the live pipeline is still the initial blank one.
pub open spec fn current_is_about_blank(r: PipelineRecord) -> bool {
    r.current.is_some() && r.current == r.about_blank
}

/// Holds the pipeline record of one nested context; nothing else changes it.
pub struct PipelineTracker {
    record: PipelineRecord,
}

impl View for PipelineTracker {
    type V = PipelineRecord;

    closed spec fn view(&self) -> PipelineRecord {
        self.record
    }
}

impl PipelineTracker {
    /// A tracker with no handle set.
    pub fn new() -> (r: PipelineTracker)
        ensures
            r@ == empty_record(),
    {
        PipelineTracker { record: PipelineRecord { current: None, pending: None, about_blank: None } }
    }

    /// Records the first pipeline of a freshly created context as current,
    /// pending and initial blank.
    pub fn record_initial(&mut self, pipeline: PipelineId)
        requires
            old(self)@ == empty_record(),
        ensures
            final(self)@ == initial_record(pipeline),
    {
        self.record = PipelineRecord {
            current: Some(pipeline),
            pending: Some(pipeline),
            about_blank: Some(pipeline),
        };
    }

    /// Records that a navigation to `new_pipeline` was requested. A navigation
    /// still pending is superseded; the current pipeline stays.
    pub fn begin_navigation(&mut self, new_pipeline: PipelineId)
        ensures
            final(self)@ == navigation_begun(old(self)@, new_pipeline),
    {
        self.record.pending = Some(new_pipeline);
    }

    /// Applies a confirmation from the orchestrator and returns whether it
    /// applied. A navigation confirmation for anything but the pending
    /// pipeline lost a race to a later navigation and changes nothing.
    pub fn confirm(&mut self, pipeline: PipelineId, reason: UpdatePipelineIdReason) -> (r: bool)
        ensures
            r == confirmation_applies(old(self)@, pipeline, reason),
            final(self)@ == confirmed(old(self)@, pipeline, reason),
    {
        match reason {
            UpdatePipelineIdReason::Navigation => {
                if self.record.pending == Some(pipeline) {
                    self.record.current = Some(pipeline);
                    self.record.pending = None;
                    true
                } else {
                    false
                }
            },
            UpdatePipelineIdReason::Traversal => {
                self.record.current = Some(pipeline);
                true
            },
        }
    }

    /// Forgets all three handles at once.
    pub fn clear(&mut self)
        ensures
            final(self)@ == cleared(old(self)@),
    {
        self.record = PipelineRecord { current: None, pending: None, about_blank: None };
    }

    pub fn record(&self) -> (r: PipelineRecord)
        ensures
            r == self@,
    {
        self.record
    }

    pub fn current(&self) -> (r: Option<PipelineId>)
        ensures
            r == self@.current,
    {
        self.record.current
    }

    pub fn pending(&self) -> (r: Option<PipelineId>)
        ensures
            r == self@.pending,
    {
        self.record.pending
    }

    pub fn about_blank(&self) -> (r: Option<PipelineId>)
        ensures
            r == self@.about_blank,
    {
        self.record.about_blank
    }

    /// Whether the live pipeline is still the initial blank one.
    pub fn is_current_about_blank(&self) -> (r: bool)
        ensures
            r == current_is_about_blank(self@),
    {
        match self.record.current {
            Some(c) => self.record.about_blank == Some(c),
            None => false,
        }
    }
}

/// Of two navigations begun one after the other, only the later one can be
/// confirmed: confirming the earlier one applies nothing and keeps the current
/// pipeline, confirming the later one makes it current.
pub proof fn lemma_later_navigation_wins(r: PipelineRecord, p1: PipelineId, p2: PipelineId)
    requires
        p1 != p2,
    ensures
        ({
            let s = navigation_begun(navigation_begun(r, p1), p2);
            &&& !confirmation_applies(s, p1, UpdatePipelineIdReason::Navigation)
            &&& confirmed(s, p1, UpdatePipelineIdReason::Navigation).current == r.current
            &&& confirmation_applies(s, p2, UpdatePipelineIdReason::Navigation)
            &&& confirmed(s, p2, UpdatePipelineIdReason::Navigation).current == Some(p2)
        }),
{
}

/// Right after the first pipeline is recorded, it is the initial blank one;
/// once a navigation to another pipeline is confirmed, it no longer is.
pub proof fn lemma_about_blank_until_navigation(p: PipelineId, p2: PipelineId)
    requires
        p != p2,
    ensures
        current_is_about_blank(initial_record(p)),
        !current_is_about_blank(
            confirmed(navigation_begun(initial_record(p), p2), p2, UpdatePipelineIdReason::Navigation),
        ),
{
}

/// Clearing twice leaves the same state as clearing once: the empty record.
pub proof fn lemma_clear_idempotent(r: PipelineRecord)
    ensures
        cleared(cleared(r)) == cleared(r),
        cleared(r) == empty_record(),
{
}

} // verus!
