//! Process-wide unique handles and the space that issues them.
use vstd::prelude::*;

verus! {

/// Handle of a pipeline: the live document and script unit serving a context.
#[derive(Clone, Copy, PartialEq, Eq, Structural, Debug, Hash)]
pub struct PipelineId {
    index: u64,
}

/// Handle of a nested browsing context.
#[derive(Clone, Copy, PartialEq, Eq, Structural, Debug, Hash)]
pub struct BrowsingContextId {
    index: u64,
}

/// Handle of the top-level browsing context that owns a tree of nested ones.
#[derive(Clone, Copy, PartialEq, Eq, Structural, Debug, Hash)]
pub struct TopLevelBrowsingContextId {
    index: u64,
}

impl PipelineId {
    pub closed spec fn spec_index(self) -> u64 {
        self.index
    }

    /// The number that tells this handle apart from the others of its kind.
    pub fn index(&self) -> (r: u64)
        ensures
            r == self.spec_index(),
    {
        self.index
    }
}

impl BrowsingContextId {
    pub closed spec fn spec_index(self) -> u64 {
        self.index
    }

    /// The number that tells this handle apart from the others of its kind.
    pub fn index(&self) -> (r: u64)
        ensures
            r == self.spec_index(),
    {
        self.index
    }
}

impl TopLevelBrowsingContextId {
    pub closed spec fn spec_index(self) -> u64 {
        self.index
    }

    /// The number that tells this handle apart from the others of its kind.
    pub fn index(&self) -> (r: u64)
        ensures
            r == self.spec_index(),
    {
        self.index
    }
}

/// Issues handles of each kind, each one distinct from every handle of the same
/// kind issued before by this space. Handles are numbered from a counter per
/// kind; a handle has been issued exactly when its number is below the counter.
///
/// A process keeps one space and hands it by `&mut` to whoever allocates, so
/// that two allocations never run at once (behind a lock where several threads
/// share it).
pub struct IdentifierSpace {
    next_pipeline: u64,
    next_browsing_context: u64,
    next_top_level: u64,
}

impl IdentifierSpace {
    /// How many pipeline handles have been issued.
    pub closed spec fn pipelines_issued(&self) -> nat {
        self.next_pipeline as nat
    }

    /// How many nested browsing context handles have been issued.
    pub closed spec fn browsing_contexts_issued(&self) -> nat {
        self.next_browsing_context as nat
    }

    /// How many top-level browsing context handles have been issued.
    pub closed spec fn top_levels_issued(&self) -> nat {
        self.next_top_level as nat
    }

    pub open spec fn issued_pipeline(&self, p: PipelineId) -> bool {
        p.spec_index() < self.pipelines_issued()
    }

    pub open spec fn issued_browsing_context(&self, b: BrowsingContextId) -> bool {
        b.spec_index() < self.browsing_contexts_issued()
    }

    pub open spec fn issued_top_level(&self, t: TopLevelBrowsingContextId) -> bool {
        t.spec_index() < self.top_levels_issued()
    }

    /// One more handle of each kind can still be issued.
    pub open spec fn spec_has_room(&self) -> bool {
        &&& self.pipelines_issued() < u64::MAX
        &&& self.browsing_contexts_issued() < u64::MAX
        &&& self.top_levels_issued() < u64::MAX
    }

    /// A space that has issued nothing.
    pub fn new() -> (r: IdentifierSpace)
        ensures
            r.pipelines_issued() == 0,
            r.browsing_contexts_issued() == 0,
            r.top_levels_issued() == 0,
    {
        IdentifierSpace { next_pipeline: 0, next_browsing_context: 0, next_top_level: 0 }
    }

    /// Whether one more handle of each kind can still be issued.
    pub fn has_room(&self) -> (r: bool)
        ensures
            r == self.spec_has_room(),
    {
        self.next_pipeline < u64::MAX && self.next_browsing_context < u64::MAX
            && self.next_top_level < u64::MAX
    }

    pub fn new_pipeline_id(&mut self) -> (r: PipelineId)
        requires
            old(self).pipelines_issued() < u64::MAX,
        ensures
            !old(self).issued_pipeline(r),
            final(self).issued_pipeline(r),
            r.spec_index() == old(self).pipelines_issued(),
            final(self).pipelines_issued() == old(self).pipelines_issued() + 1,
            final(self).browsing_contexts_issued() == old(self).browsing_contexts_issued(),
            final(self).top_levels_issued() == old(self).top_levels_issued(),
    {
        let r = PipelineId { index: self.next_pipeline };
        self.next_pipeline = self.next_pipeline + 1;
        r
    }

    pub fn new_browsing_context_id(&mut self) -> (r: BrowsingContextId)
        requires
            old(self).browsing_contexts_issued() < u64::MAX,
        ensures
            !old(self).issued_browsing_context(r),
            final(self).issued_browsing_context(r),
            r.spec_index() == old(self).browsing_contexts_issued(),
            final(self).pipelines_issued() == old(self).pipelines_issued(),
            final(self).browsing_contexts_issued() == old(self).browsing_contexts_issued() + 1,
            final(self).top_levels_issued() == old(self).top_levels_issued(),
    {
        let r = BrowsingContextId { index: self.next_browsing_context };
        self.next_browsing_context = self.next_browsing_context + 1;
        r
    }

    pub fn new_top_level_browsing_context_id(&mut self) -> (r: TopLevelBrowsingContextId)
        requires
            old(self).top_levels_issued() < u64::MAX,
        ensures
            !old(self).issued_top_level(r),
            final(self).issued_top_level(r),
            r.spec_index() == old(self).top_levels_issued(),
            final(self).pipelines_issued() == old(self).pipelines_issued(),
            final(self).browsing_contexts_issued() == old(self).browsing_contexts_issued(),
            final(self).top_levels_issued() == old(self).top_levels_issued() + 1,
    {
        let r = TopLevelBrowsingContextId { index: self.next_top_level };
        self.next_top_level = self.next_top_level + 1;
        r
    }
}

/// `p` is the pipeline handle that `after` issued on top of `before`, and the
/// only handle it issued.
pub open spec fn issues_pipeline(before: IdentifierSpace, after: IdentifierSpace, p: PipelineId) -> bool {
    &&& !before.issued_pipeline(p)
    &&& after.issued_pipeline(p)
    &&& p.spec_index() == before.pipelines_issued()
    &&& after.pipelines_issued() == before.pipelines_issued() + 1
    &&& after.browsing_contexts_issued() == before.browsing_contexts_issued()
    &&& after.top_levels_issued() == before.top_levels_issued()
}

/// `t`, `b` and `p` are the one handle of each kind that `after` issued on top
/// of `before`.
pub open spec fn issues_context(
    before: IdentifierSpace,
    after: IdentifierSpace,
    t: TopLevelBrowsingContextId,
    b: BrowsingContextId,
    p: PipelineId,
) -> bool {
    &&& !before.issued_top_level(t)
    &&& !before.issued_browsing_context(b)
    &&& !before.issued_pipeline(p)
    &&& after.issued_top_level(t)
    &&& after.issued_browsing_context(b)
    &&& after.issued_pipeline(p)
    &&& t.spec_index() == before.top_levels_issued()
    &&& b.spec_index() == before.browsing_contexts_issued()
    &&& p.spec_index() == before.pipelines_issued()
    &&& after.top_levels_issued() == before.top_levels_issued() + 1
    &&& after.browsing_contexts_issued() == before.browsing_contexts_issued() + 1
    &&& after.pipelines_issued() == before.pipelines_issued() + 1
}

} // verus!
