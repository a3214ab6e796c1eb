//! The headers that every question to upstream carries.

use vstd::prelude::*;
use vstd::string::StringExecFns;

verus! {

/// The headers of a question to upstream, each as name and value, in the
/// order in which they are set: the media type accepted, the agent's name,
/// and the bearer credential made of `token`.
pub open spec fn default_headers(token: Seq<char>) -> Seq<(Seq<char>, Seq<char>)> {
    seq![
        ("Accept"@, "application/vnd.github+json"@),
        ("User-Agent"@, "github-exporter-arm64-rs"@),
        ("Authorization"@, "Bearer "@ + token),
    ]
}

/// The view of a list of headers.
pub open spec fn header_views(headers: Seq<(String, String)>) -> Seq<(Seq<char>, Seq<char>)> {
    Seq::new(headers.len(), |i: int| (headers[i].0@, headers[i].1@))
}

/// The headers of every question to upstream: the media type accepted, the
/// agent's name, and the bearer credential made of `token`.
pub fn create_default_headers(token: String) -> (result: Vec<(String, String)>)
    ensures
        header_views(result@) == default_headers(token@),
{
    let mut headers: Vec<(String, String)> = Vec::new();
    headers.push(("Accept".to_owned(), "application/vnd.github+json".to_owned()));
    headers.push(("User-Agent".to_owned(), "github-exporter-arm64-rs".to_owned()));
    let credential = "Bearer ".to_owned().concat(token.as_str());
    headers.push(("Authorization".to_owned(), credential));
    assert(header_views(headers@) =~= default_headers(token@));
    headers
}

} // verus!
