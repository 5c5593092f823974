//! The lifecycle of the nested context of a webview element: the element is
//! attached to and detached from documents, its source attribute changes, and
//! the orchestrator confirms pipelines. Each of these events is a method here;
//! what must reach the orchestrator is queued on an [`OrchestratorGateway`].
use vstd::prelude::*;
use crate::gateway::{OrchestratorGateway, OutboundMessageModel};
use crate::ids::{
    BrowsingContextId, IdentifierSpace, PipelineId, TopLevelBrowsingContextId, issues_context,
    issues_pipeline,
};
use crate::load::{
    DocumentContext, LoadBlocker, LoadRequest, LoadRequestModel, about_blank, about_blank_url,
    content_url, document_load, get_url, str_view,
};
use crate::navigation::{HistoryDisposition, NavigationCoordinator, NavigationPlan,
    NavigationPlanModel, ProcessingMode, planned,
};
use crate::registry::{
    ContentRegistry, DocumentHandle, DocumentOrigin, WindowHandle, content_document, content_window,
};
use crate::tracker::{
    PipelineRecord, PipelineTracker, UpdatePipelineIdReason, cleared, confirmation_applies,
    confirmed, current_is_about_blank, empty_record, initial_record, navigation_begun,
};

verus! {

/// Where the element stands towards a nested context.
#[derive(Clone, Copy, PartialEq, Eq, Structural, Debug)]
pub enum ContextPhase {
    /// No nested context.
    Detached,
    /// The element is in a document with a browsing context and has a nested
    /// context of its own.
    Attached { top_level_id: TopLevelBrowsingContextId, browsing_context_id: BrowsingContextId },
    /// The element was removed and the orchestrator was asked to discard the
    /// context; its reply has not come yet.
    TearingDown { top_level_id: TopLevelBrowsingContextId, browsing_context_id: BrowsingContextId },
}

/// The state of a webview element's nested context as plain values.
pub struct WebViewModel {
    pub phase: ContextPhase,
    pub record: PipelineRecord,
    /// The pipeline whose load keeps the embedding document's load open.
    pub blocked: Option<PipelineId>,
    /// First-time processing of the attributes is queued and has not run.
    pub first_time_queued: bool,
    pub throttled: bool,
}

/// The consistency that every event keeps: a detached element holds nothing;
/// an attached one has a live pipeline and knows its blank one; the load that
/// is blocked on is that of the pending navigation.
pub open spec fn well_formed(m: WebViewModel) -> bool {
    match m.phase {
        ContextPhase::Detached => {
            &&& m.record == empty_record()
            &&& m.blocked.is_none()
            &&& !m.first_time_queued
        },
        ContextPhase::Attached { .. } => {
            &&& m.record.current.is_some()
            &&& m.record.about_blank.is_some()
            &&& m.blocked.is_some() ==> m.blocked == m.record.pending
        },
        ContextPhase::TearingDown { .. } => {
            &&& m.blocked.is_none()
            &&& !m.first_time_queued
        },
    }
}

/// The handles of the context that the element has, if any.
pub open spec fn context_ids(phase: ContextPhase) -> Option<(TopLevelBrowsingContextId, BrowsingContextId)> {
    match phase {
        ContextPhase::Detached => None,
        ContextPhase::Attached { top_level_id, browsing_context_id } => Some((top_level_id, browsing_context_id)),
        ContextPhase::TearingDown { top_level_id, browsing_context_id } => Some((top_level_id, browsing_context_id)),
    }
}

/// The name of the source attribute.
pub open spec fn src_name() -> Seq<char> {
    seq!['s', 'r', 'c']
}

/// Attaching creates a context exactly when the element has none and the
/// document has a browsing context.
pub open spec fn attach_creates(m: WebViewModel, has_browsing_context: bool) -> bool {
    m.phase is Detached && has_browsing_context
}

/// The state right after a context with handles `t`, `b` and first pipeline
/// `p` was created: the blank document is live and first-time processing is
/// queued.
pub open spec fn created(m: WebViewModel, t: TopLevelBrowsingContextId, b: BrowsingContextId, p: PipelineId) -> WebViewModel {
    WebViewModel {
        phase: ContextPhase::Attached { top_level_id: t, browsing_context_id: b },
        record: initial_record(p),
        blocked: None,
        first_time_queued: true,
        throttled: m.throttled,
    }
}

/// The request that creates a context with handles `t`, `b` and first pipeline
/// `p` for the document `doc`: it loads the blank document on behalf of `doc`.
pub open spec fn creation_message(
    t: TopLevelBrowsingContextId,
    b: BrowsingContextId,
    p: PipelineId,
    doc: DocumentContext,
) -> OutboundMessageModel {
    OutboundMessageModel::CreateNestedContext {
        top_level_id: t,
        browsing_context_id: b,
        new_pipeline_id: p,
        load: document_load(about_blank(), Some(doc.pipeline_id), doc),
        window_geometry: doc.window_geometry,
    }
}

/// The state after a navigation to `p` was requested: it is pending, and its
/// load is blocked on in place of any earlier one.
pub open spec fn navigation_requested(m: WebViewModel, p: PipelineId) -> WebViewModel {
    WebViewModel { record: navigation_begun(m.record, p), blocked: Some(p), ..m }
}

/// An attached element goes from `m0` to `m1` by a navigation that loads
/// `load`: a fresh pipeline is issued and becomes pending, and the navigation
/// request for it, naming the pipeline that was current, is queued. A detached
/// element, or one being torn down, changes nothing.
pub open spec fn navigation_sent(
    m0: WebViewModel,
    m1: WebViewModel,
    ids0: IdentifierSpace,
    ids1: IdentifierSpace,
    out0: Seq<OutboundMessageModel>,
    out1: Seq<OutboundMessageModel>,
    load: LoadRequestModel,
    history: HistoryDisposition,
) -> bool {
    match m0.phase {
        ContextPhase::Attached { top_level_id, browsing_context_id } => {
            let p = m1.record.pending->0;
            &&& m1 == navigation_requested(m0, p)
            &&& issues_pipeline(ids0, ids1, p)
            &&& out1 == out0.push(
                OutboundMessageModel::NavigateNestedContext {
                    browsing_context_id,
                    top_level_id,
                    new_pipeline_id: p,
                    old_pipeline_id: m0.record.current,
                    load,
                    history,
                },
            )
        },
        _ => m1 == m0 && ids1 == ids0 && out1 == out0,
    }
}

/// The element goes from `m0` to `m1` by processing its attributes in `mode`
/// with source attribute `src`: what the navigation plan for the content URL
/// says is done, and nothing when it says to skip.
pub open spec fn attributes_processed(
    mode: ProcessingMode,
    src: Option<Seq<char>>,
    doc: DocumentContext,
    m0: WebViewModel,
    m1: WebViewModel,
    ids0: IdentifierSpace,
    ids1: IdentifierSpace,
    out0: Seq<OutboundMessageModel>,
    out1: Seq<OutboundMessageModel>,
) -> bool {
    match planned(mode, src.is_some(), content_url(src, doc.base_url@), current_is_about_blank(m0.record), doc) {
        NavigationPlanModel::Skip => m1 == m0 && ids1 == ids0 && out1 == out0,
        NavigationPlanModel::Navigate { load, history } => navigation_sent(m0, m1, ids0, ids1, out0, out1, load, history),
    }
}

/// The state after a confirmation of `p` for `reason` applied: the record
/// moves and the blocked load is released.
pub open spec fn confirmation_applied(m: WebViewModel, p: PipelineId, reason: UpdatePipelineIdReason) -> WebViewModel {
    WebViewModel { record: confirmed(m.record, p, reason), blocked: None, ..m }
}

/// The state after teardown was asked for: the blocked load is released and
/// the queued first-time processing will do nothing.
pub open spec fn teardown_requested(m: WebViewModel) -> WebViewModel {
    WebViewModel {
        phase: ContextPhase::TearingDown {
            top_level_id: m.phase->Attached_top_level_id,
            browsing_context_id: m.phase->Attached_browsing_context_id,
        },
        blocked: None,
        first_time_queued: false,
        ..m
    }
}

/// The state after the context was discarded: nothing is left of it.
pub open spec fn destroyed(m: WebViewModel) -> WebViewModel {
    WebViewModel {
        phase: ContextPhase::Detached,
        record: cleared(m.record),
        blocked: None,
        first_time_queued: false,
        throttled: m.throttled,
    }
}

/// Whether `name` is the source attribute's name.
pub fn is_src_attribute(name: &str) -> (r: bool)
    ensures
        r == (name@ == src_name()),
{
    let n = name.unicode_len();
    if n != 3 {
        return false;
    }
    let r = name.get_char(0) == 's' && name.get_char(1) == 'r' && name.get_char(2) == 'c';
    assert(r ==> name@ =~= src_name());
    r
}

/// The lifecycle controller of a webview element's nested context, driven by
/// the element's events. It owns the pipeline tracker and the load blocker;
/// identifiers and the gateway are lent to each event by the process.
pub struct HTMLWebViewElement {
    phase: ContextPhase,
    tracker: PipelineTracker,
    load_blocker: LoadBlocker,
    first_time_queued: bool,
    throttled: bool,
}

impl View for HTMLWebViewElement {
    type V = WebViewModel;

    closed spec fn view(&self) -> WebViewModel {
        WebViewModel {
            phase: self.phase,
            record: self.tracker@,
            blocked: self.load_blocker@,
            first_time_queued: self.first_time_queued,
            throttled: self.throttled,
        }
    }
}

impl HTMLWebViewElement {
    pub open spec fn wf(&self) -> bool {
        well_formed(self@)
    }

    /// An element with no nested context.
    pub fn new() -> (r: HTMLWebViewElement)
        ensures
            r.wf(),
            r@.phase is Detached,
            r@.record == empty_record(),
            r@.blocked.is_none(),
            !r@.first_time_queued,
            !r@.throttled,
    {
        HTMLWebViewElement {
            phase: ContextPhase::Detached,
            tracker: PipelineTracker::new(),
            load_blocker: LoadBlocker::new(),
            first_time_queued: false,
            throttled: false,
        }
    }

    /// Handles the element's insertion into a document. Where the document has
    /// a browsing context and the element has no context, fresh handles are
    /// issued, the blank document becomes the first pipeline, its creation is
    /// requested, and first-time processing of the attributes is queued.
    /// Otherwise nothing happens.
    pub fn bind_to_tree(
        &mut self,
        has_browsing_context: bool,
        doc: &DocumentContext,
        ids: &mut IdentifierSpace,
        gateway: &mut OrchestratorGateway,
    )
        requires
            old(self).wf(),
            old(ids).spec_has_room(),
        ensures
            final(self).wf(),
            if attach_creates(old(self)@, has_browsing_context) {
                let t = final(self)@.phase->Attached_top_level_id;
                let b = final(self)@.phase->Attached_browsing_context_id;
                let p = final(self)@.record.current->0;
                &&& final(self)@ == created(old(self)@, t, b, p)
                &&& issues_context(*old(ids), *final(ids), t, b, p)
                &&& final(gateway)@ == old(gateway)@.push(creation_message(t, b, p, *doc))
            } else {
                &&& final(self)@ == old(self)@
                &&& *final(ids) == *old(ids)
                &&& final(gateway)@ == old(gateway)@
            },
    {
        if !has_browsing_context {
            return;
        }
        match self.phase {
            ContextPhase::Detached => {},
            _ => {
                return;
            },
        }
        let top_level_id = ids.new_top_level_browsing_context_id();
        let browsing_context_id = ids.new_browsing_context_id();
        let pipeline_id = ids.new_pipeline_id();
        let load = LoadRequest::for_document(about_blank_url(), Some(doc.pipeline_id), doc);
        self.tracker.record_initial(pipeline_id);
        gateway.request_creation(top_level_id, browsing_context_id, pipeline_id, load, doc.window_geometry);
        self.phase = ContextPhase::Attached { top_level_id, browsing_context_id };
        self.first_time_queued = true;
    }

    /// Navigates the context to a fresh pipeline that loads `load`: the
    /// pipeline becomes pending, its load is blocked on in place of any
    /// earlier one, and the navigation is requested. Without an attached
    /// context nothing happens.
    pub fn navigate_or_reload(
        &mut self,
        load: LoadRequest,
        history: HistoryDisposition,
        ids: &mut IdentifierSpace,
        gateway: &mut OrchestratorGateway,
    )
        requires
            old(self).wf(),
            old(ids).pipelines_issued() < u64::MAX,
        ensures
            final(self).wf(),
            navigation_sent(old(self)@, final(self)@, *old(ids), *final(ids), old(gateway)@, final(gateway)@, load@, history),
    {
        match self.phase {
            ContextPhase::Attached { top_level_id, browsing_context_id } => {
                let old_pipeline_id = self.tracker.current();
                let new_pipeline_id = ids.new_pipeline_id();
                self.tracker.begin_navigation(new_pipeline_id);
                self.load_blocker.block(new_pipeline_id);
                gateway.request_navigation(
                    browsing_context_id,
                    top_level_id,
                    new_pipeline_id,
                    old_pipeline_id,
                    load,
                    history,
                );
            },
            _ => {},
        }
    }

    /// Processes the attributes in `mode`, the source attribute being `src`.
    fn process_the_iframe_attributes(
        &mut self,
        mode: ProcessingMode,
        src: Option<&str>,
        doc: &DocumentContext,
        ids: &mut IdentifierSpace,
        gateway: &mut OrchestratorGateway,
    )
        requires
            old(self).wf(),
            old(ids).pipelines_issued() < u64::MAX,
        ensures
            final(self).wf(),
            attributes_processed(mode, str_view(src), *doc, old(self)@, final(self)@, *old(ids), *final(ids), old(gateway)@, final(gateway)@),
    {
        let url = get_url(src, doc.base_url.as_str());
        let is_current_about_blank = self.tracker.is_current_about_blank();
        match NavigationCoordinator::plan(mode, src.is_some(), url, is_current_about_blank, doc) {
            NavigationPlan::Skip => {},
            NavigationPlan::Navigate { load, history } => {
                self.navigate_or_reload(load, history, ids, gateway);
            },
        }
    }

    /// Runs the queued first-time processing of the attributes, the source
    /// attribute being `src` by now. Where none is queued, or the element has
    /// been removed since, nothing happens.
    pub fn delayed_initialize(
        &mut self,
        src: Option<&str>,
        doc: &DocumentContext,
        ids: &mut IdentifierSpace,
        gateway: &mut OrchestratorGateway,
    )
        requires
            old(self).wf(),
            old(ids).pipelines_issued() < u64::MAX,
        ensures
            final(self).wf(),
            if old(self)@.phase is Attached && old(self)@.first_time_queued {
                attributes_processed(
                    ProcessingMode::FirstTime,
                    str_view(src),
                    *doc,
                    WebViewModel { first_time_queued: false, ..old(self)@ },
                    final(self)@,
                    *old(ids),
                    *final(ids),
                    old(gateway)@,
                    final(gateway)@,
                )
            } else {
                &&& final(self)@ == old(self)@
                &&& *final(ids) == *old(ids)
                &&& final(gateway)@ == old(gateway)@
            },
    {
        if !self.first_time_queued {
            return;
        }
        match self.phase {
            ContextPhase::Attached { .. } => {},
            _ => {
                return;
            },
        }
        self.first_time_queued = false;
        self.process_the_iframe_attributes(ProcessingMode::FirstTime, src, doc, ids, gateway);
    }

    /// Handles a change of the attribute `name`, the source attribute being
    /// `src` after it. A change of the source attribute of an attached element
    /// whose first-time processing has run processes the attributes again;
    /// any other change does nothing.
    pub fn attribute_mutated(
        &mut self,
        name: &str,
        src: Option<&str>,
        doc: &DocumentContext,
        ids: &mut IdentifierSpace,
        gateway: &mut OrchestratorGateway,
    )
        requires
            old(self).wf(),
            old(ids).pipelines_issued() < u64::MAX,
        ensures
            final(self).wf(),
            if name@ == src_name() && old(self)@.phase is Attached && !old(self)@.first_time_queued {
                attributes_processed(
                    ProcessingMode::NotFirstTime,
                    str_view(src),
                    *doc,
                    old(self)@,
                    final(self)@,
                    *old(ids),
                    *final(ids),
                    old(gateway)@,
                    final(gateway)@,
                )
            } else {
                &&& final(self)@ == old(self)@
                &&& *final(ids) == *old(ids)
                &&& final(gateway)@ == old(gateway)@
            },
    {
        if !is_src_attribute(name) || self.first_time_queued {
            return;
        }
        match self.phase {
            ContextPhase::Attached { .. } => {},
            _ => {
                return;
            },
        }
        self.process_the_iframe_attributes(ProcessingMode::NotFirstTime, src, doc, ids, gateway);
    }

    /// Handles the orchestrator's report that `new_pipeline_id` is now live for
    /// `reason`, and returns whether it applied. It applies to an attached
    /// element when the tracker accepts it; then the blocked load is released
    /// and the caller marks the element's layout dirty. Otherwise nothing
    /// changes: a stale report lost a race to a later navigation.
    pub fn update_pipeline_id(&mut self, new_pipeline_id: PipelineId, reason: UpdatePipelineIdReason) -> (r: bool)
        requires
            old(self).wf(),
        ensures
            final(self).wf(),
            r == (old(self)@.phase is Attached && confirmation_applies(old(self)@.record, new_pipeline_id, reason)),
            final(self)@ == if r {
                confirmation_applied(old(self)@, new_pipeline_id, reason)
            } else {
                old(self)@
            },
    {
        match self.phase {
            ContextPhase::Attached { .. } => {},
            _ => {
                return false;
            },
        }
        let applied = self.tracker.confirm(new_pipeline_id, reason);
        if applied {
            self.load_blocker.release();
        }
        applied
    }

    /// Handles the element's removal from its document. An attached element
    /// releases its blocked load and asks the orchestrator to discard its
    /// context; the caller waits for the reply and then calls
    /// [`Self::destroy_nested_browsing_context`]. Returns whether teardown was
    /// asked for: an element without an attached context does nothing.
    pub fn unbind_from_tree(&mut self, gateway: &mut OrchestratorGateway) -> (r: bool)
        requires
            old(self).wf(),
        ensures
            final(self).wf(),
            r == old(self)@.phase is Attached,
            r ==> final(self)@ == teardown_requested(old(self)@),
            r ==> final(gateway)@ == old(gateway)@.push(
                OutboundMessageModel::RemoveNestedContext {
                    browsing_context_id: old(self)@.phase->Attached_browsing_context_id,
                },
            ),
            !r ==> final(self)@ == old(self)@ && final(gateway)@ == old(gateway)@,
    {
        match self.phase {
            ContextPhase::Attached { top_level_id, browsing_context_id } => {
                self.load_blocker.release();
                self.first_time_queued = false;
                gateway.request_teardown(browsing_context_id);
                self.phase = ContextPhase::TearingDown { top_level_id, browsing_context_id };
                true
            },
            _ => false,
        }
    }

    /// Forgets the nested context: its handles, all three pipelines, the
    /// blocked load and any queued processing, all at once. Runs when the
    /// orchestrator has confirmed the teardown, or when the document that
    /// holds the element is itself discarded.
    pub fn destroy_nested_browsing_context(&mut self)
        requires
            old(self).wf(),
        ensures
            final(self).wf(),
            final(self)@ == destroyed(old(self)@),
    {
        self.tracker.clear();
        self.load_blocker.release();
        self.first_time_queued = false;
        self.phase = ContextPhase::Detached;
    }

    /// The live pipeline of the context.
    pub fn pipeline_id(&self) -> (r: Option<PipelineId>)
        ensures
            r == self@.record.current,
    {
        self.tracker.current()
    }

    /// The pipeline of the navigation waiting for confirmation.
    pub fn pending_pipeline_id(&self) -> (r: Option<PipelineId>)
        ensures
            r == self@.record.pending,
    {
        self.tracker.pending()
    }

    /// The pipeline of the context's initial blank document.
    pub fn about_blank_pipeline_id(&self) -> (r: Option<PipelineId>)
        ensures
            r == self@.record.about_blank,
    {
        self.tracker.about_blank()
    }

    /// Whether the live pipeline is still the initial blank one.
    pub fn is_current_about_blank(&self) -> (r: bool)
        ensures
            r == current_is_about_blank(self@.record),
    {
        self.tracker.is_current_about_blank()
    }

    /// The nested context's handle, until the context is discarded.
    pub fn browsing_context_id(&self) -> (r: Option<BrowsingContextId>)
        ensures
            r == match context_ids(self@.phase) {
                Some(ids) => Some(ids.1),
                None => None::<BrowsingContextId>,
            },
    {
        match self.phase {
            ContextPhase::Detached => None,
            ContextPhase::Attached { browsing_context_id, .. } => Some(browsing_context_id),
            ContextPhase::TearingDown { browsing_context_id, .. } => Some(browsing_context_id),
        }
    }

    /// The handle of the context's top-level browsing context, until the
    /// context is discarded.
    pub fn top_level_browsing_context_id(&self) -> (r: Option<TopLevelBrowsingContextId>)
        ensures
            r == match context_ids(self@.phase) {
                Some(ids) => Some(ids.0),
                None => None::<TopLevelBrowsingContextId>,
            },
    {
        match self.phase {
            ContextPhase::Detached => None,
            ContextPhase::Attached { top_level_id, .. } => Some(top_level_id),
            ContextPhase::TearingDown { top_level_id, .. } => Some(top_level_id),
        }
    }

    pub fn phase(&self) -> (r: ContextPhase)
        ensures
            r == self@.phase,
    {
        self.phase
    }

    /// The pipeline whose load keeps the embedding document's load open.
    pub fn blocked_load(&self) -> (r: Option<PipelineId>)
        ensures
            r == self@.blocked,
    {
        self.load_blocker.blocked_pipeline()
    }

    /// Whether first-time processing of the attributes is queued.
    pub fn first_time_processing_queued(&self) -> (r: bool)
        ensures
            r == self@.first_time_queued,
    {
        self.first_time_queued
    }

    pub fn set_throttled(&mut self, throttled: bool)
        requires
            old(self).wf(),
        ensures
            final(self).wf(),
            final(self)@ == (WebViewModel { throttled, ..old(self)@ }),
    {
        if self.throttled != throttled {
            self.throttled = throttled;
        }
    }

    pub fn is_throttled(&self) -> (r: bool)
        ensures
            r == self@.throttled,
    {
        self.throttled
    }

    /// The window of the context's live pipeline, where `registry` holds it.
    pub fn resolve_content_window(&self, registry: &ContentRegistry) -> (r: Option<WindowHandle>)
        ensures
            r == content_window(self@.record.current, registry@),
    {
        match self.tracker.current() {
            Some(p) => match registry.lookup(p) {
                Some(entry) => Some(entry.window),
                None => None,
            },
            None => None,
        }
    }

    /// The document of the context's live pipeline, where `registry` holds it
    /// and `caller_origin` is same origin-domain with it; a document of another
    /// origin is denied.
    pub fn resolve_content_document(&self, registry: &ContentRegistry, caller_origin: &DocumentOrigin) -> (r: Option<DocumentHandle>)
        ensures
            r == content_document(self@.record.current, registry@, *caller_origin),
    {
        match self.tracker.current() {
            Some(p) => match registry.lookup(p) {
                Some(entry) => {
                    if caller_origin.is_same_origin_domain(&entry.origin) {
                        Some(entry.document)
                    } else {
                        None
                    }
                },
                None => None,
            },
            None => None,
        }
    }
}

/// An element torn down while a navigation was pending holds nothing once
/// the orchestrator has replied: no handle, no pipeline, no blocked load. It
/// can be attached again, and the context it then gets has handles that
/// differ from every handle issued before.
pub proof fn lemma_reattach_after_teardown(
    m: WebViewModel,
    ids0: IdentifierSpace,
    ids1: IdentifierSpace,
    t: TopLevelBrowsingContextId,
    b: BrowsingContextId,
    p: PipelineId,
    earlier_t: TopLevelBrowsingContextId,
    earlier_b: BrowsingContextId,
    earlier_p: PipelineId,
)
    requires
        well_formed(m),
        m.phase is Attached,
        m.record.pending.is_some(),
        issues_context(ids0, ids1, t, b, p),
        ids0.issued_top_level(earlier_t),
        ids0.issued_browsing_context(earlier_b),
        ids0.issued_pipeline(earlier_p),
    ensures
        ({
            let gone = destroyed(teardown_requested(m));
            let again = created(gone, t, b, p);
            &&& well_formed(gone)
            &&& gone.record == empty_record()
            &&& context_ids(gone.phase) is None
            &&& gone.blocked is None
            &&& attach_creates(gone, true)
            &&& well_formed(again)
            &&& again.record == initial_record(p)
            &&& t != earlier_t
            &&& b != earlier_b
            &&& p != earlier_p
        }),
{
}

/// Two navigations requested one after the other before either is
/// confirmed: a confirmation of the first does not apply, before or after the
/// second is confirmed, and only a confirmation of the second makes it live.
pub proof fn lemma_stale_confirmation_ignored(m: WebViewModel, p1: PipelineId, p2: PipelineId)
    requires
        well_formed(m),
        m.phase is Attached,
        p1 != p2,
    ensures
        ({
            let two = navigation_requested(navigation_requested(m, p1), p2);
            let done = confirmation_applied(two, p2, UpdatePipelineIdReason::Navigation);
            &&& well_formed(two)
            &&& !confirmation_applies(two.record, p1, UpdatePipelineIdReason::Navigation)
            &&& confirmation_applies(two.record, p2, UpdatePipelineIdReason::Navigation)
            &&& done.record.current == Some(p2)
            &&& !confirmation_applies(done.record, p1, UpdatePipelineIdReason::Navigation)
        }),
{
}

} // verus!
