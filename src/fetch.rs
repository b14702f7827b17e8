use vstd::prelude::*;
use vstd::string::*;
use crate::text::{replace_all, replace_char};

verus! {

/// Whether NSFW posts are asked for: only when the user shows them and the
/// deployment is not limited to safe content.
pub open spec fn include_nsfw(show_nsfw: bool, sfw_only: bool) -> bool {
    show_nsfw && !sfw_only
}

/// The query parameter that asks upstream for NSFW posts, or nothing.
pub open spec fn nsfw_param_for(show_nsfw: bool, sfw_only: bool) -> Seq<char> {
    if include_nsfw(show_nsfw, sfw_only) {
        "&include_over_18=on"@
    } else {
        ""@
    }
}

/// The upstream path that fetches the posts of a search made at `uri_path` with `query`.
pub open spec fn posts_path_for(uri_path: Seq<char>, query: Seq<char>, show_nsfw: bool, sfw_only: bool) -> Seq<char> {
    replace_char(uri_path, '+', "%2B"@) + ".json?"@ + query + nsfw_param_for(show_nsfw, sfw_only)
        + "&raw_json=1"@
}

/// The NSFW-inclusion parameter for the given preferences.
pub fn nsfw_param(show_nsfw: bool, sfw_only: bool) -> (r: &'static str)
    ensures
        r@ == nsfw_param_for(show_nsfw, sfw_only),
{
    if show_nsfw && !sfw_only {
        "&include_over_18=on"
    } else {
        ""
    }
}

/// Builds the upstream path of the post search; a `+` in the path is escaped as `%2B`.
pub fn posts_path(uri_path: &str, query: &str, show_nsfw: bool, sfw_only: bool) -> (r: String)
    ensures
        r@ == posts_path_for(uri_path@, query@, show_nsfw, sfw_only),
{
    proof {
        reveal_strlit("+");
    }
    let mut path = replace_all(uri_path, "+", "%2B");
    path.append(".json?");
    path.append(query);
    path.append(nsfw_param(show_nsfw, sfw_only));
    path.append("&raw_json=1");
    path
}

} // verus!
