use vstd::prelude::*;
use crate::aggregate::{aggregate, aggregated, Post, PostFetch, SearchResult};
use crate::community::{community_search_path, community_search_path_for, Community};
use crate::error::{classify_fetch_error, gated_text, quarantined_text, FetchError};
use crate::fetch::{posts_path, posts_path_for};
use crate::filter::{is_filtered_subject, subject_filtered, FilterSet};
use crate::query::SearchQuery;

verus! {

/// The upstream requests a search needs; each may run concurrently with the other.
#[derive(Debug)]
pub struct SearchPlan {
    /// Path of the community search, unless the search is restricted to the target.
    pub community_search: Option<String>,
    /// Path of the post search, unless the whole target is filtered.
    pub post_fetch: Option<String>,
}

/// Where the search request came from and how the user views content.
pub struct RequestContext {
    /// Path of the request, e.g. `/r/rust/search`.
    pub uri_path: String,
    /// The raw query string of the request.
    pub query_string: String,
    /// The target community, possibly several joined by `+`; empty for a site-wide search.
    pub target: String,
    pub show_nsfw: bool,
    /// The deployment only serves safe-for-work content.
    pub sfw_only: bool,
}

/// Decides which upstream requests a search makes. No post request is made for a
/// target whose every segment is filtered, nor a community search for a restricted one.
pub fn plan_search(search: &SearchQuery, ctx: &RequestContext, filters: &FilterSet) -> (r: SearchPlan)
    ensures
        search.restricted ==> r.community_search is None,
        !search.restricted ==> (r.community_search matches Some(p) && p@ == community_search_path_for(
            search.query@,
            search.params.typed@,
        )),
        subject_filtered(ctx.target@, filters@) ==> r.post_fetch is None,
        !subject_filtered(ctx.target@, filters@) ==> (r.post_fetch matches Some(p) && p@ == posts_path_for(
            ctx.uri_path@,
            ctx.query_string@,
            ctx.show_nsfw,
            ctx.sfw_only,
        )),
{
    let community_search = if search.restricted {
        None
    } else {
        Some(community_search_path(search.query.as_str(), search.params.typed.as_str()))
    };
    let post_fetch = if is_filtered_subject(ctx.target.as_str(), filters) {
        None
    } else {
        Some(posts_path(ctx.uri_path.as_str(), ctx.query_string.as_str(), ctx.show_nsfw, ctx.sfw_only))
    };
    SearchPlan { community_search, post_fetch }
}

/// Finishes a search once its upstream requests are done. `posts` is `None` when the
/// plan made no post request; an upstream failure becomes a tagged error, and
/// otherwise the posts and communities are filtered into the result.
pub fn complete_search(
    posts: Option<Result<(Vec<Post>, String), String>>,
    communities: Vec<Community>,
    filters: &FilterSet,
    show_nsfw: bool,
) -> (r: Result<SearchResult, FetchError>)
    ensures
        posts is None ==> (r matches Ok(res) && aggregated(
            PostFetch::Skipped,
            communities@,
            filters@,
            show_nsfw,
            res,
        )),
        posts matches Some(Ok((ps, after))) ==> (r matches Ok(res) && aggregated(
            PostFetch::Fetched(ps, after),
            communities@,
            filters@,
            show_nsfw,
            res,
        )),
        posts matches Some(Err(msg)) ==> (r matches Err(e) && (msg@ == quarantined_text() ==> e is Quarantined)
            && (msg@ == gated_text() ==> e is Gated) && (msg@ != quarantined_text() && msg@ != gated_text()
            ==> (e matches FetchError::Other(m) && m@ == msg@))),
{
    match posts {
        None => Ok(aggregate(PostFetch::Skipped, communities, filters, show_nsfw)),
        Some(Ok((ps, after))) => Ok(aggregate(PostFetch::Fetched(ps, after), communities, filters, show_nsfw)),
        Some(Err(msg)) => Err(classify_fetch_error(msg)),
    }
}

} // verus!
