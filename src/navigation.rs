//! The policy that decides what a navigation of a nested context asks for.
use vstd::prelude::*;
use crate::load::{DocumentContext, LoadRequest, LoadRequestModel, document_load};

verus! {

/// Whether the attributes are processed right after the context was created,
/// or because one of them changed later.
#[derive(Clone, Copy, PartialEq, Eq, Structural, Debug)]
pub enum ProcessingMode {
    FirstTime,
    NotFirstTime,
}

/// What a navigation does to the session history.
#[derive(Clone, Copy, PartialEq, Eq, Structural, Debug)]
pub enum HistoryDisposition {
    /// The new document takes the place of the current history entry.
    Replace,
    /// The new document gets an entry of its own.
    Append,
}

/// The outcome of planning a navigation.
pub enum NavigationPlan {
    /// No navigation is issued.
    Skip,
    Navigate { load: LoadRequest, history: HistoryDisposition },
}

/// A navigation plan seen as plain values.
pub enum NavigationPlanModel {
    Skip,
    Navigate { load: LoadRequestModel, history: HistoryDisposition },
}

impl View for NavigationPlan {
    type V = NavigationPlanModel;

    open spec fn view(&self) -> NavigationPlanModel {
        match self {
            NavigationPlan::Skip => NavigationPlanModel::Skip,
            NavigationPlan::Navigate { load, history } => NavigationPlanModel::Navigate {
                load: load@,
                history: *history,
            },
        }
    }
}

/// The history disposition of a navigation: the initial blank document is
/// replaced, so that it never shows in history; anything else gets an entry.
pub open spec fn disposition_for(is_current_about_blank: bool) -> HistoryDisposition {
    if is_current_about_blank {
        HistoryDisposition::Replace
    } else {
        HistoryDisposition::Append
    }
}

/// The plan for processing the attributes in `mode` of an element that has a
/// source attribute or not, whose content URL is `url`.
pub open spec fn planned(
    mode: ProcessingMode,
    has_source_attribute: bool,
    url: Seq<char>,
    is_current_about_blank: bool,
    doc: DocumentContext,
) -> NavigationPlanModel {
    if mode == ProcessingMode::FirstTime && !has_source_attribute {
        NavigationPlanModel::Skip
    } else {
        NavigationPlanModel::Navigate {
            load: document_load(url, None, doc),
            history: disposition_for(is_current_about_blank),
        }
    }
}

/// Decides what kind of pipeline operation a navigation needs.
pub struct NavigationCoordinator;

impl NavigationCoordinator {
    /// Plans the navigation that processing the attributes in `mode` asks for.
    /// On first processing an element without a source attribute gets none;
    /// otherwise the plan loads `resolved_url` for `doc`, replacing the history
    /// entry exactly when the live document is still the initial blank one.
    pub fn plan(
        mode: ProcessingMode,
        has_source_attribute: bool,
        resolved_url: String,
        is_current_about_blank: bool,
        doc: &DocumentContext,
    ) -> (r: NavigationPlan)
        ensures
            r@ == planned(mode, has_source_attribute, resolved_url@, is_current_about_blank, *doc),
    {
        if mode == ProcessingMode::FirstTime && !has_source_attribute {
            return NavigationPlan::Skip;
        }
        let history = if is_current_about_blank {
            HistoryDisposition::Replace
        } else {
            HistoryDisposition::Append
        };
        NavigationPlan::Navigate { load: LoadRequest::for_document(resolved_url, None, doc), history }
    }
}

/// On first processing, an element without a source attribute gets no
/// navigation, whatever its URL and whether the blank document is live.
pub proof fn lemma_first_time_without_source_skips(
    url: Seq<char>,
    is_current_about_blank: bool,
    doc: DocumentContext,
)
    ensures
        planned(ProcessingMode::FirstTime, false, url, is_current_about_blank, doc)
            is Skip,
{
}

/// Every navigation that is planned replaces the history entry while the
/// initial blank document is live, and appends one otherwise.
pub proof fn lemma_blank_document_is_replaced(
    mode: ProcessingMode,
    has_source_attribute: bool,
    url: Seq<char>,
    is_current_about_blank: bool,
    doc: DocumentContext,
)
    requires
        !(mode == ProcessingMode::FirstTime && !has_source_attribute),
    ensures
        ({
            let p = planned(mode, has_source_attribute, url, is_current_about_blank, doc);
            &&& p is Navigate
            &&& is_current_about_blank ==> p->Navigate_history == HistoryDisposition::Replace
            &&& !is_current_about_blank ==> p->Navigate_history == HistoryDisposition::Append
        }),
{
}

} // verus!
