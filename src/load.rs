//! What a load asks for, where its values come from, and the marker that keeps
//! the embedding document's load open while a nested load is outstanding.
use vstd::prelude::*;
use vstd::string::StringExecFns;
use crate::ids::PipelineId;

verus! {

/// The referrer policy that a load carries.
#[derive(Clone, Copy, PartialEq, Eq, Structural, Debug)]
pub enum ReferrerPolicy {
    EmptyString,
    NoReferrer,
    NoReferrerWhenDowngrade,
    Origin,
    SameOrigin,
    OriginWhenCrossOrigin,
    UnsafeUrl,
    StrictOrigin,
    StrictOriginWhenCrossOrigin,
}

/// Size of the window that a new context is created for. The window reports
/// these as `f32` values; they are carried as their bit patterns so that they
/// reach the orchestrator unchanged.
#[derive(Clone, Copy, PartialEq, Eq, Structural, Debug)]
pub struct WindowGeometry {
    pub viewport_width_bits: u32,
    pub viewport_height_bits: u32,
    pub device_pixel_ratio_bits: u32,
}

/// What the embedding document contributes to the loads it starts.
pub struct DocumentContext {
    /// The pipeline of the embedding document itself.
    pub pipeline_id: PipelineId,
    /// The document's base URL, serialized.
    pub base_url: String,
    /// The referrer URL that loads started by the document carry.
    pub referrer: String,
    pub referrer_policy: ReferrerPolicy,
    pub is_secure_context: bool,
    pub window_geometry: WindowGeometry,
}

/// A request to load a URL into a nested context.
pub struct LoadRequest {
    pub url: String,
    /// The load was started by script of the embedding document.
    pub from_script: bool,
    /// The pipeline that asked for the load, if it is to be recorded.
    pub initiator: Option<PipelineId>,
    pub referrer: String,
    pub referrer_policy: ReferrerPolicy,
    pub is_secure_context: bool,
}

/// A load request seen as plain values.
pub struct LoadRequestModel {
    pub url: Seq<char>,
    pub from_script: bool,
    pub initiator: Option<PipelineId>,
    pub referrer: Seq<char>,
    pub referrer_policy: ReferrerPolicy,
    pub is_secure_context: bool,
}

impl View for LoadRequest {
    type V = LoadRequestModel;

    open spec fn view(&self) -> LoadRequestModel {
        LoadRequestModel {
            url: self.url@,
            from_script: self.from_script,
            initiator: self.initiator,
            referrer: self.referrer@,
            referrer_policy: self.referrer_policy,
            is_secure_context: self.is_secure_context,
        }
    }
}

/// The text of the URL of the initial blank document.
pub open spec fn about_blank() -> Seq<char> {
    seq!['a', 'b', 'o', 'u', 't', ':', 'b', 'l', 'a', 'n', 'k']
}

/// The request, made by script of `doc`, to load `url` on behalf of `initiator`.
pub open spec fn document_load(url: Seq<char>, initiator: Option<PipelineId>, doc: DocumentContext) -> LoadRequestModel {
    LoadRequestModel {
        url: url,
        from_script: true,
        initiator: initiator,
        referrer: doc.referrer@,
        referrer_policy: doc.referrer_policy,
        is_secure_context: doc.is_secure_context,
    }
}

/// `reference` resolved against the base URL `base`, or `None` where the two
/// make no valid URL.
pub uninterp spec fn joined_url(base: Seq<char>, reference: Seq<char>) -> Option<Seq<char>>;

/// The URL that a resolution gave, or the blank document where it failed.
pub open spec fn url_or_about_blank(joined: Option<Seq<char>>) -> Seq<char> {
    match joined {
        Some(u) => u,
        None => about_blank(),
    }
}

/// The URL that a nested context shows for the source attribute `src`: the
/// blank document when the attribute is absent or empty, else the attribute
/// resolved against the document's base URL.
pub open spec fn content_url(src: Option<Seq<char>>, base: Seq<char>) -> Seq<char> {
    match src {
        Some(s) => if s.len() == 0 {
            about_blank()
        } else {
            url_or_about_blank(joined_url(base, s))
        },
        None => about_blank(),
    }
}

pub open spec fn string_view(o: Option<String>) -> Option<Seq<char>> {
    match o {
        Some(s) => Some(s@),
        None => None,
    }
}

pub open spec fn str_view(o: Option<&str>) -> Option<Seq<char>> {
    match o {
        Some(s) => Some(s@),
        None => None,
    }
}

/// Relies on servo_url: `ServoUrl::parse` reads the serialized base URL back
/// into a URL, and `ServoUrl::join` resolves `reference` against it. The result
/// is a function of the two strings.
#[verifier::external_body]
fn join_url(base: &str, reference: &str) -> (r: Option<String>)
    ensures
        string_view(r) == joined_url(base@, reference@),
{
    servo_url::ServoUrl::parse(base).and_then(|b| b.join(reference)).ok().map(|u| u.into_string())
}

/// The URL of the initial blank document.
pub fn about_blank_url() -> (r: String)
    ensures
        r@ == about_blank(),
{
    proof {
        reveal_strlit("about:blank");
    }
    let r = String::from_str("about:blank");
    assert(r@ =~= about_blank());
    r
}

/// The URL that a resolution gave, or the blank document where it failed.
pub fn resolved_or_about_blank(joined: Option<String>) -> (r: String)
    ensures
        r@ == url_or_about_blank(string_view(joined)),
{
    match joined {
        Some(u) => u,
        None => about_blank_url(),
    }
}

/// The URL to load for the source attribute `src` of an element in a document
/// whose base URL is `base_url`.
pub fn get_url(src: Option<&str>, base_url: &str) -> (r: String)
    ensures
        r@ == content_url(str_view(src), base_url@),
{
    match src {
        Some(s) => {
            if s.is_empty() {
                about_blank_url()
            } else {
                resolved_or_about_blank(join_url(base_url, s))
            }
        },
        None => about_blank_url(),
    }
}

impl LoadRequest {
    pub fn new(
        url: String,
        from_script: bool,
        initiator: Option<PipelineId>,
        referrer: String,
        referrer_policy: ReferrerPolicy,
        is_secure_context: bool,
    ) -> (r: LoadRequest)
        ensures
            r.url == url,
            r.from_script == from_script,
            r.initiator == initiator,
            r.referrer == referrer,
            r.referrer_policy == referrer_policy,
            r.is_secure_context == is_secure_context,
    {
        LoadRequest { url, from_script, initiator, referrer, referrer_policy, is_secure_context }
    }

    /// A load of `url` started by script of `doc` on behalf of `initiator`,
    /// with the document's referrer and security context.
    pub fn for_document(url: String, initiator: Option<PipelineId>, doc: &DocumentContext) -> (r: LoadRequest)
        ensures
            r@ == document_load(url@, initiator, *doc),
    {
        LoadRequest::new(
            url,
            true,
            initiator,
            doc.referrer.clone(),
            doc.referrer_policy,
            doc.is_secure_context,
        )
    }
}

/// Keeps the embedding document's load open while the load of a nested
/// pipeline is outstanding. At most one load is blocked at a time: blocking a
/// new one releases the one before.
pub struct LoadBlocker {
    blocked: Option<PipelineId>,
}

impl View for LoadBlocker {
    type V = Option<PipelineId>;

    closed spec fn view(&self) -> Option<PipelineId> {
        self.blocked
    }
}

impl LoadBlocker {
    /// A blocker that blocks nothing.
    pub fn new() -> (r: LoadBlocker)
        ensures
            r@.is_none(),
    {
        LoadBlocker { blocked: None }
    }

    /// Blocks on the load of `pipeline`, releasing whatever was blocked before.
    pub fn block(&mut self, pipeline: PipelineId)
        ensures
            final(self)@ == Some(pipeline),
    {
        self.blocked = Some(pipeline);
    }

    /// Releases the blocked load, if any.
    pub fn release(&mut self)
        ensures
            final(self)@.is_none(),
    {
        self.blocked = None;
    }

    pub fn is_blocking(&self) -> (r: bool)
        ensures
            r == self@.is_some(),
    {
        self.blocked.is_some()
    }

    /// The pipeline whose load is blocked on.
    pub fn blocked_pipeline(&self) -> (r: Option<PipelineId>)
        ensures
            r == self@,
    {
        self.blocked
    }
}

} // verus!
