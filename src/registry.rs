//! The process-wide registry through which an element reaches the documents
//! and windows of its nested context, by pipeline.
use vstd::prelude::*;
use std::collections::HashMap;
use crate::ids::PipelineId;

verus! {

broadcast use vstd::std_specs::hash::group_hash_axioms;

/// The origin of a document.
pub enum Origin {
    /// A unique origin, equal only to itself.
    Opaque { id: u64 },
    /// A scheme, host and port.
    Tuple { scheme: String, host: String, port: u16 },
}

/// Whether two origins are the same origin.
pub open spec fn same_origin(a: Origin, b: Origin) -> bool {
    match a {
        Origin::Opaque { id: x } => match b {
            Origin::Opaque { id: y } => x == y,
            Origin::Tuple { .. } => false,
        },
        Origin::Tuple { scheme: s1, host: h1, port: p1 } => match b {
            Origin::Opaque { .. } => false,
            Origin::Tuple { scheme: s2, host: h2, port: p2 } => s1@ == s2@ && h1@ == h2@ && p1 == p2,
        },
    }
}

impl Origin {
    /// Whether the two origins have the same scheme, or both have none.
    pub fn has_same_scheme(&self, other: &Origin) -> (r: bool)
        ensures
            r == (origin_scheme(*self) == origin_scheme(*other)),
    {
        match self {
            Origin::Opaque { .. } => match other {
                Origin::Opaque { .. } => true,
                Origin::Tuple { .. } => false,
            },
            Origin::Tuple { scheme: s1, .. } => match other {
                Origin::Opaque { .. } => false,
                Origin::Tuple { scheme: s2, .. } => *s1 == *s2,
            },
        }
    }

    /// Whether `self` and `other` are the same origin.
    pub fn is_same_origin(&self, other: &Origin) -> (r: bool)
        ensures
            r == same_origin(*self, *other),
    {
        match self {
            Origin::Opaque { id: x } => match other {
                Origin::Opaque { id: y } => *x == *y,
                Origin::Tuple { .. } => false,
            },
            Origin::Tuple { scheme: s1, host: h1, port: p1 } => match other {
                Origin::Opaque { .. } => false,
                Origin::Tuple { scheme: s2, host: h2, port: p2 } => *s1 == *s2 && *h1 == *h2 && *p1 == *p2,
            },
        }
    }
}

/// The origin of a document together with the domain that the document may
/// have set for itself.
pub struct DocumentOrigin {
    pub origin: Origin,
    pub domain: Option<String>,
}

/// The scheme of an origin; an opaque origin has none.
pub open spec fn origin_scheme(o: Origin) -> Option<Seq<char>> {
    match o {
        Origin::Opaque { .. } => None,
        Origin::Tuple { scheme, .. } => Some(scheme@),
    }
}

/// Whether `a` and `b` are same origin-domain: where `a` has set a domain, `b`
/// has set the same one and the schemes agree; otherwise neither has set one
/// and the origins are the same.
pub open spec fn same_origin_domain(a: DocumentOrigin, b: DocumentOrigin) -> bool {
    match a.domain {
        Some(da) => match b.domain {
            Some(db) => da@ == db@ && origin_scheme(a.origin) == origin_scheme(b.origin),
            None => false,
        },
        None => b.domain.is_none() && same_origin(a.origin, b.origin),
    }
}

impl DocumentOrigin {
    /// Whether `self` and `other` are same origin-domain.
    pub fn is_same_origin_domain(&self, other: &DocumentOrigin) -> (r: bool)
        ensures
            r == same_origin_domain(*self, *other),
    {
        match &self.domain {
            Some(da) => match &other.domain {
                Some(db) => *da == *db && self.origin.has_same_scheme(&other.origin),
                None => false,
            },
            None => other.domain.is_none() && self.origin.is_same_origin(&other.origin),
        }
    }
}

/// Handle of a document held by its owner's arena.
#[derive(Clone, Copy, PartialEq, Eq, Structural, Debug, Hash)]
pub struct DocumentHandle(pub u64);

/// Handle of a window held by its owner's arena.
#[derive(Clone, Copy, PartialEq, Eq, Structural, Debug, Hash)]
pub struct WindowHandle(pub u64);

/// What the registry knows of the pipeline that serves a document here.
pub struct ContentEntry {
    pub origin: DocumentOrigin,
    pub document: DocumentHandle,
    pub window: WindowHandle,
}

/// The documents and windows that this process serves, keyed by the number of
/// their pipeline. Whoever creates the local side of a pipeline registers it
/// and unregisters it when the pipeline goes away.
pub struct ContentRegistry {
    entries: HashMap<u64, ContentEntry>,
}

impl View for ContentRegistry {
    type V = Map<u64, ContentEntry>;

    closed spec fn view(&self) -> Map<u64, ContentEntry> {
        self.entries@
    }
}

impl ContentRegistry {
    /// A registry with nothing in it.
    pub fn new() -> (r: ContentRegistry)
        ensures
            r@ == Map::<u64, ContentEntry>::empty(),
    {
        ContentRegistry { entries: HashMap::new() }
    }

    /// Registers what serves `pipeline_id`, in place of anything before.
    pub fn register(&mut self, pipeline_id: PipelineId, entry: ContentEntry)
        ensures
            final(self)@ == old(self)@.insert(pipeline_id.spec_index(), entry),
    {
        self.entries.insert(pipeline_id.index(), entry);
    }

    /// Forgets `pipeline_id`.
    pub fn unregister(&mut self, pipeline_id: PipelineId)
        ensures
            final(self)@ == old(self)@.remove(pipeline_id.spec_index()),
    {
        let key = pipeline_id.index();
        self.entries.remove(&key);
    }

    /// What serves `pipeline_id`, if it is registered.
    pub fn lookup(&self, pipeline_id: PipelineId) -> (r: Option<&ContentEntry>)
        ensures
            match r {
                Some(e) => self@.contains_key(pipeline_id.spec_index()) && *e == self@[pipeline_id.spec_index()],
                None => !self@.contains_key(pipeline_id.spec_index()),
            },
    {
        let key = pipeline_id.index();
        self.entries.get(&key)
    }
}

/// The window of the pipeline `current`, where it is registered.
pub open spec fn content_window(current: Option<PipelineId>, registry: Map<u64, ContentEntry>) -> Option<WindowHandle> {
    match current {
        Some(p) => if registry.contains_key(p.spec_index()) {
            Some(registry[p.spec_index()].window)
        } else {
            None
        },
        None => None,
    }
}

/// The document of the pipeline `current`, where it is registered here and the
/// caller is same origin-domain with it. A document of another origin is not handed
/// out: that is a denial, not a failure.
pub open spec fn content_document(
    current: Option<PipelineId>,
    registry: Map<u64, ContentEntry>,
    caller_origin: DocumentOrigin,
) -> Option<DocumentHandle> {
    match current {
        Some(p) => if registry.contains_key(p.spec_index()) && same_origin_domain(
            caller_origin,
            registry[p.spec_index()].origin,
        ) {
            Some(registry[p.spec_index()].document)
        } else {
            None
        },
        None => None,
    }
}

} // verus!
