use vstd::prelude::*;

use crate::url::ExtractionError;

verus! {

/// Why revision resolution failed.
#[derive(Debug)]
pub enum ResolutionError {
    /// The named backend cannot discover the latest revision by itself.
    Unsupported(String),
}

/// A failure reported by the external hashing mechanism, kept with the
/// strategy that was attempted and the mechanism's own words.
#[derive(Debug)]
pub struct HashError {
    pub strategy: String,
    pub message: String,
}

/// Any failure of the pipeline: extraction, revision resolution, or the
/// external hashing mechanism.
#[derive(Debug)]
pub enum FetchError {
    Extraction(ExtractionError),
    Resolution(ResolutionError),
    Hash(HashError),
}

/// A request to the network capability that discovers the latest revision:
/// the URL whose response names it.
#[derive(Debug)]
pub struct RevisionRequest {
    pub api_url: String,
}

/// The mathematical view of a hashing request.
pub enum HashRequestModel {
    /// Realize the given fixed-output-derivation expression.
    Fod(Seq<char>),
    /// Resolve and hash the given flake reference.
    Flake(Seq<char>),
    /// Clone the repository at the revision and hash the tree.
    Git { url: Seq<char>, rev: Seq<char>, fetch_submodules: bool },
    /// Download the URL and hash the content, unpacking archives first
    /// when asked to.
    Url { url: Seq<char>, unpack: bool },
}

/// One fully-determined call into the external hashing mechanism; the
/// caller performs it and hands the verified content hash back.
#[derive(Debug)]
pub enum HashRequest {
    Fod(String),
    Flake(String),
    Git { url: String, rev: String, fetch_submodules: bool },
    Url { url: String, unpack: bool },
}

impl View for HashRequest {
    type V = HashRequestModel;

    open spec fn view(&self) -> HashRequestModel {
        match self {
            HashRequest::Fod(e) => HashRequestModel::Fod(e@),
            HashRequest::Flake(f) => HashRequestModel::Flake(f@),
            HashRequest::Git { url, rev, fetch_submodules } => HashRequestModel::Git {
                url: url@,
                rev: rev@,
                fetch_submodules: *fetch_submodules,
            },
            HashRequest::Url { url, unpack } => HashRequestModel::Url {
                url: url@,
                unpack: *unpack,
            },
        }
    }
}

/// What the revision resolver decides before any outside work: either the
/// revision is already final, or the latest one must be fetched.
#[derive(Debug)]
pub enum RevisionPlan {
    /// The revision is known: a caller-supplied one is final as it stands.
    Resolved(String),
    /// The backend supports discovery; the latest revision must be fetched.
    FetchLatest,
}

/// Decide how the revision is obtained. A caller-supplied revision is
/// returned unchanged and nothing else is ever consulted; without one, a
/// backend that supports discovery asks for the latest revision, and any
/// other backend fails, whatever the identifiers are.
pub fn plan_revision(caller: Option<String>, supports_latest: bool, backend_name: &String) -> (r:
    Result<RevisionPlan, ResolutionError>)
    ensures
        (caller matches Some(rv) ==> (r matches Ok(p) && p matches RevisionPlan::Resolved(got)
            && got@ == rv@)),
        (caller is None && supports_latest ==> (r matches Ok(p) && p is FetchLatest)),
        (caller is None && !supports_latest ==> (r matches Err(
            ResolutionError::Unsupported(n),
        ) && n@ == backend_name@)),
{
    match caller {
        Some(rv) => Ok(RevisionPlan::Resolved(rv)),
        None => {
            if supports_latest {
                Ok(RevisionPlan::FetchLatest)
            } else {
                Err(ResolutionError::Unsupported(backend_name.clone()))
            }
        },
    }
}

/// A caller-supplied revision is final: the resolver's plan for it is
/// never to fetch, so the network capability is never invoked.
pub proof fn lemma_caller_revision_never_fetches(
    caller: Option<String>,
    r: Result<RevisionPlan, ResolutionError>,
)
    requires
        caller is Some,
        r matches Ok(p) ==> p matches RevisionPlan::Resolved(got) && got@ == caller->0@,
    ensures
        r matches Ok(p) ==> !(p is FetchLatest),
{
}

} // verus!
