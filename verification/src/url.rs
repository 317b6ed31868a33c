use vstd::prelude::*;

verus! {

/// A source location, reduced to what the pipeline reads from it: the
/// ordered path segments of the URL.
pub struct SourceUrl {
    pub segments: Vec<String>,
}

impl View for SourceUrl {
    type V = Seq<Seq<char>>;

    open spec fn view(&self) -> Seq<Seq<char>> {
        self.segments.deep_view()
    }
}

impl SourceUrl {
    /// Build a source location from its path segments, in order.
    pub fn from_segments(segments: Vec<String>) -> (r: SourceUrl)
        ensures
            r@ == segments.deep_view(),
    {
        SourceUrl { segments }
    }
}

/// Why identifier extraction failed.
#[derive(Debug, PartialEq, Eq, Structural)]
pub enum ExtractionError {
    /// The URL's path has fewer segments than the backend's arity.
    InsufficientSegments,
}

/// A segment with a trailing repository-archive marker (`.git`) removed;
/// a segment without the marker is unchanged.
pub open spec fn spec_strip_git_suffix(s: Seq<char>) -> Seq<char> {
    if s.len() >= 4 && s.subrange(s.len() - 4, s.len() as int) == ".git"@ {
        s.subrange(0, s.len() - 4)
    } else {
        s
    }
}

/// The identifiers a backend of the given arity reads from the path
/// segments: exactly the first `arity` segments, with the archive marker
/// stripped from the last of them.
pub open spec fn spec_identifiers(segs: Seq<Seq<char>>, arity: int) -> Seq<Seq<char>>
    recommends
        0 <= arity <= segs.len(),
{
    let first = segs.take(arity);
    if arity > 0 {
        first.update(arity - 1, spec_strip_git_suffix(first[arity - 1]))
    } else {
        first
    }
}

/// Strip a trailing `.git` marker from one segment.
pub fn strip_git_suffix(s: &String) -> (r: String)
    ensures
        r@ == spec_strip_git_suffix(s@),
{
    let n = s.as_str().unicode_len();
    if n >= 4 {
        let suffix = s.as_str().substring_char(n - 4, n).to_owned();
        let marker: String = String::from_str(".git");
        if suffix == marker {
            let stripped = s.as_str().substring_char(0, n - 4).to_owned();
            return stripped;
        }
    }
    s.clone()
}

/// Extract the backend's identifiers from a URL: the first `arity` path
/// segments, failing exactly when fewer than `arity` segments exist.
/// Extraction reads nothing else of the URL, so trailing segments beyond
/// the first `arity` never change the result.
pub fn extract_identifiers(url: &SourceUrl, arity: usize) -> (r: Result<
    Vec<String>,
    ExtractionError,
>)
    ensures
        r is Ok <==> url@.len() >= arity,
        r is Ok ==> r->Ok_0.deep_view() == spec_identifiers(url@, arity as int),
        r is Err ==> r->Err_0 == ExtractionError::InsufficientSegments,
{
    if url.segments.len() < arity {
        return Err(ExtractionError::InsufficientSegments);
    }
    let mut out: Vec<String> = Vec::new();
    let mut i: usize = 0;
    while i < arity
        invariant
            0 <= i <= arity,
            arity <= url.segments.len(),
            out@.len() == i,
            forall|j: int| #![auto] 0 <= j < i ==> out@[j]@ == url.segments@[j]@,
        decreases arity - i,
    {
        let seg = url.segments[i].clone();
        out.push(seg);
        i = i + 1;
    }
    if arity > 0 {
        let stripped = strip_git_suffix(&out[arity - 1]);
        out.set(arity - 1, stripped);
        assert forall|j: int| 0 <= j < arity implies #[trigger] out.deep_view()[j]
            == spec_identifiers(url@, arity as int)[j] by {
            assert(url@[j] == url.segments@[j]@);
        }
        assert(out.deep_view() =~= spec_identifiers(url@, arity as int));
    } else {
        assert(out.deep_view() =~= spec_identifiers(url@, arity as int));
    }
    Ok(out)
}

/// Identifier extraction is a function of the URL and the arity alone, so
/// re-running it on the same URL yields identical identifiers: any two
/// results of extraction on equal inputs are equal.
pub proof fn lemma_extraction_idempotent(
    segs: Seq<Seq<char>>,
    arity: int,
    r1: Seq<Seq<char>>,
    r2: Seq<Seq<char>>,
)
    requires
        r1 == spec_identifiers(segs, arity),
        r2 == spec_identifiers(segs, arity),
    ensures
        r1 == r2,
{
}

} // verus!
