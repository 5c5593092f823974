//! The messages that go to the orchestrating process, and the outbox that
//! holds them in the order they were requested until they are sent.
use vstd::prelude::*;
use crate::ids::{BrowsingContextId, PipelineId, TopLevelBrowsingContextId};
use crate::load::{LoadRequest, LoadRequestModel, WindowGeometry};
use crate::navigation::HistoryDisposition;

verus! {

/// A request to the orchestrating process.
pub enum OutboundMessage {
    /// Realize a new nested context and its first pipeline. Fire and forget.
    CreateNestedContext {
        top_level_id: TopLevelBrowsingContextId,
        browsing_context_id: BrowsingContextId,
        new_pipeline_id: PipelineId,
        load: LoadRequest,
        window_geometry: WindowGeometry,
    },
    /// Navigate a nested context to a new pipeline. Fire and forget.
    NavigateNestedContext {
        browsing_context_id: BrowsingContextId,
        top_level_id: TopLevelBrowsingContextId,
        new_pipeline_id: PipelineId,
        old_pipeline_id: Option<PipelineId>,
        load: LoadRequest,
        history: HistoryDisposition,
    },
    /// Discard a nested context and everything under it. The sender waits for
    /// the reply, the set of pipelines that were discarded.
    RemoveNestedContext { browsing_context_id: BrowsingContextId },
}

/// A message seen as plain values.
pub enum OutboundMessageModel {
    CreateNestedContext {
        top_level_id: TopLevelBrowsingContextId,
        browsing_context_id: BrowsingContextId,
        new_pipeline_id: PipelineId,
        load: LoadRequestModel,
        window_geometry: WindowGeometry,
    },
    NavigateNestedContext {
        browsing_context_id: BrowsingContextId,
        top_level_id: TopLevelBrowsingContextId,
        new_pipeline_id: PipelineId,
        old_pipeline_id: Option<PipelineId>,
        load: LoadRequestModel,
        history: HistoryDisposition,
    },
    RemoveNestedContext { browsing_context_id: BrowsingContextId },
}

impl View for OutboundMessage {
    type V = OutboundMessageModel;

    open spec fn view(&self) -> OutboundMessageModel {
        match self {
            OutboundMessage::CreateNestedContext {
                top_level_id,
                browsing_context_id,
                new_pipeline_id,
                load,
                window_geometry,
            } => OutboundMessageModel::CreateNestedContext {
                top_level_id: *top_level_id,
                browsing_context_id: *browsing_context_id,
                new_pipeline_id: *new_pipeline_id,
                load: load@,
                window_geometry: *window_geometry,
            },
            OutboundMessage::NavigateNestedContext {
                browsing_context_id,
                top_level_id,
                new_pipeline_id,
                old_pipeline_id,
                load,
                history,
            } => OutboundMessageModel::NavigateNestedContext {
                browsing_context_id: *browsing_context_id,
                top_level_id: *top_level_id,
                new_pipeline_id: *new_pipeline_id,
                old_pipeline_id: *old_pipeline_id,
                load: load@,
                history: *history,
            },
            OutboundMessage::RemoveNestedContext { browsing_context_id } => {
                OutboundMessageModel::RemoveNestedContext { browsing_context_id: *browsing_context_id }
            },
        }
    }
}

pub open spec fn messages_view(v: Seq<OutboundMessage>) -> Seq<OutboundMessageModel> {
    v.map_values(|m: OutboundMessage| m@)
}

/// The boundary to the orchestrating process: requests queue up here in the
/// order they were made, and whoever owns the channel sends them in that order.
pub struct OrchestratorGateway {
    outbox: Vec<OutboundMessage>,
}

impl View for OrchestratorGateway {
    type V = Seq<OutboundMessageModel>;

    closed spec fn view(&self) -> Seq<OutboundMessageModel> {
        messages_view(self.outbox@)
    }
}

impl OrchestratorGateway {
    /// A gateway with nothing waiting to be sent.
    pub fn new() -> (r: OrchestratorGateway)
        ensures
            r@ == Seq::<OutboundMessageModel>::empty(),
    {
        let r = OrchestratorGateway { outbox: Vec::new() };
        assert(r@ =~= Seq::<OutboundMessageModel>::empty());
        r
    }

    fn send(&mut self, msg: OutboundMessage)
        ensures
            final(self)@ == old(self)@.push(msg@),
    {
        self.outbox.push(msg);
        assert(messages_view(self.outbox@) =~= messages_view(old(self).outbox@).push(msg@));
    }

    /// Asks for a new nested context whose first pipeline loads `load`.
    pub fn request_creation(
        &mut self,
        top_level_id: TopLevelBrowsingContextId,
        browsing_context_id: BrowsingContextId,
        new_pipeline_id: PipelineId,
        load: LoadRequest,
        window_geometry: WindowGeometry,
    )
        ensures
            final(self)@ == old(self)@.push(
                OutboundMessageModel::CreateNestedContext {
                    top_level_id,
                    browsing_context_id,
                    new_pipeline_id,
                    load: load@,
                    window_geometry,
                },
            ),
    {
        self.send(
            OutboundMessage::CreateNestedContext {
                top_level_id,
                browsing_context_id,
                new_pipeline_id,
                load,
                window_geometry,
            },
        );
    }

    /// Asks for a navigation of a nested context to a new pipeline.
    pub fn request_navigation(
        &mut self,
        browsing_context_id: BrowsingContextId,
        top_level_id: TopLevelBrowsingContextId,
        new_pipeline_id: PipelineId,
        old_pipeline_id: Option<PipelineId>,
        load: LoadRequest,
        history: HistoryDisposition,
    )
        ensures
            final(self)@ == old(self)@.push(
                OutboundMessageModel::NavigateNestedContext {
                    browsing_context_id,
                    top_level_id,
                    new_pipeline_id,
                    old_pipeline_id,
                    load: load@,
                    history,
                },
            ),
    {
        self.send(
            OutboundMessage::NavigateNestedContext {
                browsing_context_id,
                top_level_id,
                new_pipeline_id,
                old_pipeline_id,
                load,
                history,
            },
        );
    }

    /// Asks for a nested context to be discarded. The one who sends it waits
    /// for the reply before anything else happens to the context.
    pub fn request_teardown(&mut self, browsing_context_id: BrowsingContextId)
        ensures
            final(self)@ == old(self)@.push(
                OutboundMessageModel::RemoveNestedContext { browsing_context_id },
            ),
    {
        self.send(OutboundMessage::RemoveNestedContext { browsing_context_id });
    }

    /// The messages waiting to be sent, oldest first.
    pub fn pending_messages(&self) -> (r: &Vec<OutboundMessage>)
        ensures
            messages_view(r@) == self@,
    {
        &self.outbox
    }

    /// Hands out the messages waiting to be sent, oldest first, and empties the
    /// outbox.
    pub fn take_messages(&mut self) -> (r: Vec<OutboundMessage>)
        ensures
            messages_view(r@) == old(self)@,
            final(self)@ == Seq::<OutboundMessageModel>::empty(),
    {
        let mut r: Vec<OutboundMessage> = Vec::new();
        std::mem::swap(&mut self.outbox, &mut r);
        assert(self@ =~= Seq::<OutboundMessageModel>::empty());
        r
    }
}

} // verus!
