//! Parsing a GitHub web URL into a source reference: the repository's
//! owner and name, and the folder path inside the repository.
//!
//! A folder URL has the shape
//! `https://github.com/<owner>/<repo>/tree/<branch>/<path...>`: at least
//! five path segments, of which the first two name the repository, the
//! third and fourth (conventionally `tree` and the branch) are skipped,
//! and the rest, joined with `/`, form the folder path.
use vstd::prelude::*;

use crate::text::join_with;
use crate::text::join_segments;

verus! {

/// Why a URL was rejected.
#[derive(Debug, Clone, Copy, PartialEq, Eq, Structural)]
pub enum ParseError {
    /// The string is not a syntactically valid URL, or has no path
    /// segments at all.
    InvalidUrl,
    /// The URL has fewer than five path segments.
    InvalidFormat,
}

/// A parsed source reference: which repository to fetch and which folder
/// inside it to flatten. Immutable once parsed.
#[derive(Debug)]
pub struct SourceRef {
    /// The repository owner: the first path segment.
    pub owner: String,
    /// The repository name: the second path segment.
    pub repo: String,
    /// The folder path inside the repository: the fifth and later path
    /// segments joined with `/`.
    pub folder: String,
}

/// The path segments that the `url` crate's parser yields for this
/// string: `None` when the string is not a valid URL or the URL cannot
/// be a base, else the URL's path split on `/`. The result depends on
/// the string alone.
pub uninterp spec fn url_path_segments_spec(s: Seq<char>) -> Option<Seq<Seq<char>>>;

/// Relies on `url::Url::parse` for URL syntax and on
/// `Url::path_segments`, which splits the path on `/` when the URL can
/// be a base and yields nothing otherwise. Both depend on the input
/// string alone.
#[verifier::external_body]
fn url_path_segments(url: &str) -> (r: Option<Vec<String>>)
    ensures
        r is Some <==> url_path_segments_spec(url@) is Some,
        r matches Some(v) ==> v.deep_view() == url_path_segments_spec(url@).unwrap(),
{
    let parsed = match url::Url::parse(url) {
        Ok(u) => u,
        Err(_) => return None,
    };
    let segments = match parsed.path_segments() {
        Some(s) => s,
        None => return None,
    };
    Some(segments.map(|s| s.to_owned()).collect())
}

/// The canonical clone address of a repository:
/// `https://github.com/<owner>/<repo>.git`.
pub open spec fn clone_url_spec(owner: Seq<char>, repo: Seq<char>) -> Seq<char> {
    "https://github.com/"@ + owner + "/"@ + repo + ".git"@
}

impl SourceRef {
    /// The canonical clone address of the referenced repository.
    pub fn clone_url(&self) -> (r: String)
        ensures
            r@ == clone_url_spec(self.owner@, self.repo@),
    {
        let mut r = String::from_str("https://github.com/");
        r.append(self.owner.as_str());
        r.append("/");
        r.append(self.repo.as_str());
        r.append(".git");
        r
    }
}

/// Builds the source reference from a URL's path segments: the first
/// segment is the owner, the second the repository name, and the fifth
/// and later, joined with `/`, the folder path. Fails when fewer than
/// five segments are present.
pub fn source_from_segments(segments: &Vec<String>) -> (r: Result<SourceRef, ParseError>)
    ensures
        r is Ok <==> segments@.len() >= 5,
        segments@.len() < 5 ==> r == Err::<SourceRef, ParseError>(ParseError::InvalidFormat),
        r matches Ok(src) ==> {
            &&& src.owner@ == segments.deep_view()[0]
            &&& src.repo@ == segments.deep_view()[1]
            &&& src.folder@ == join_with(segments.deep_view().skip(4), '/')
        },
{
    if segments.len() < 5 {
        return Err(ParseError::InvalidFormat);
    }
    let owner = segments[0].clone();
    let repo = segments[1].clone();
    let folder = join_segments(segments, 4);
    Ok(SourceRef { owner, repo, folder })
}

/// Parses a GitHub folder URL. Fails with `InvalidUrl` when the string
/// is not a valid URL (or the URL has no path segments), and with
/// `InvalidFormat` when it has fewer than five; otherwise returns the
/// source reference built from the segments as `source_from_segments`
/// states.
pub fn parse_github_url(url: &str) -> (r: Result<SourceRef, ParseError>)
    ensures
        url_path_segments_spec(url@) is None ==> r == Err::<SourceRef, ParseError>(
            ParseError::InvalidUrl,
        ),
        url_path_segments_spec(url@) matches Some(segs) ==> {
            &&& r is Ok <==> segs.len() >= 5
            &&& segs.len() < 5 ==> r == Err::<SourceRef, ParseError>(ParseError::InvalidFormat)
            &&& r matches Ok(src) ==> {
                &&& src.owner@ == segs[0]
                &&& src.repo@ == segs[1]
                &&& src.folder@ == join_with(segs.skip(4), '/')
            }
        },
{
    let segments = match url_path_segments(url) {
        Some(v) => v,
        None => return Err(ParseError::InvalidUrl),
    };
    source_from_segments(&segments)
}

} // verus!
