use vstd::prelude::*;
use vstd::string::*;
use crate::text::{replace_all, replace_char, same_text};

verus! {

/// A community found by a search, in the shape that is shown.
#[derive(Debug)]
pub struct Community {
    pub name: String,
    pub url: String,
    /// Absolute URL of the community's icon.
    pub icon: String,
    pub description: String,
    /// The subscriber count, formatted: the short form and the full number.
    pub subscribers: (String, String),
}

/// How many communities a search asks for: many on a community search, a few beside posts.
pub open spec fn result_limit(typed: Seq<char>) -> Seq<char> {
    if typed == "sr_user"@ {
        "50"@
    } else {
        "3"@
    }
}

/// The upstream path that searches communities for `q`.
pub open spec fn community_search_path_for(q: Seq<char>, typed: Seq<char>) -> Seq<char> {
    "/subreddits/search.json?q="@ + replace_char(q, ' ', "+"@) + "&limit="@ + result_limit(typed)
}

/// The result cap for a search of type `typed`.
pub fn limit_for(typed: &str) -> (r: &'static str)
    ensures
        r@ == result_limit(typed@),
{
    if same_text(typed, "sr_user") {
        "50"
    } else {
        "3"
    }
}

/// Builds the upstream path of a community search: spaces become `+`.
pub fn community_search_path(q: &str, typed: &str) -> (r: String)
    ensures
        r@ == community_search_path_for(q@, typed@),
{
    proof {
        reveal_strlit(" ");
    }
    let mut path = String::from_str("/subreddits/search.json?q=");
    let words = replace_all(q, " ", "+");
    path.append(words.as_str());
    path.append("&limit=");
    path.append(limit_for(typed));
    path
}

/// The icon a community shows: its community icon where the record has one, else its icon image.
pub fn pick_icon(community_icon: Option<String>, icon_img: String) -> (r: String)
    ensures
        match community_icon {
            Some(c) => r@ == c@,
            None => r@ == icon_img@,
        },
{
    match community_icon {
        Some(c) => c,
        None => icon_img,
    }
}

} // verus!
