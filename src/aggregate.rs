use vstd::prelude::*;
use crate::community::Community;
use crate::filter::FilterSet;

verus! {

/// A post as far as filtering reads it.
#[derive(Debug)]
pub struct Post {
    /// The upstream identifier of the post.
    pub id: String,
    /// The name of the community it was posted in.
    pub community: String,
    pub nsfw: bool,
}

/// The posts whose community is not filtered, in their order.
pub open spec fn kept_posts(posts: Seq<Post>, f: Set<Seq<char>>) -> Seq<Post>
    decreases posts.len(),
{
    if posts.len() == 0 {
        Seq::empty()
    } else {
        let rest = kept_posts(posts.drop_last(), f);
        if f.contains(posts.last().community@) {
            rest
        } else {
            rest.push(posts.last())
        }
    }
}

/// The communities whose name is not filtered, in their order.
pub open spec fn kept_communities(cs: Seq<Community>, f: Set<Seq<char>>) -> Seq<Community>
    decreases cs.len(),
{
    if cs.len() == 0 {
        Seq::empty()
    } else {
        let rest = kept_communities(cs.drop_last(), f);
        if f.contains(cs.last().name@) {
            rest
        } else {
            rest.push(cs.last())
        }
    }
}

/// Every post is flagged NSFW.
pub open spec fn all_nsfw(posts: Seq<Post>) -> bool {
    forall|i: int| 0 <= i < posts.len() ==> (#[trigger] posts[i]).nsfw
}

/// Removes the posts of filtered communities.
pub fn filter_posts(posts: Vec<Post>, filters: &FilterSet) -> (r: Vec<Post>)
    ensures
        r@ == kept_posts(posts@, filters@),
{
    let ghost orig = posts@;
    let ghost n = orig.len();
    let mut rest = posts;
    let mut out: Vec<Post> = Vec::new();
    proof {
        assert(orig.subrange(0, 0) =~= Seq::<Post>::empty());
        assert(orig.subrange(0, n as int) =~= orig);
    }
    while rest.len() > 0
        invariant
            rest@.len() <= n,
            n == orig.len(),
            rest@ == orig.subrange(n - rest@.len(), n as int),
            out@ == kept_posts(orig.subrange(0, n - rest@.len()), filters@),
        decreases rest@.len(),
    {
        let ghost k = n - rest@.len();
        let p = rest.remove(0);
        proof {
            let next = orig.subrange(0, k + 1);
            assert(next.drop_last() =~= orig.subrange(0, k));
            assert(next.last() == p);
            assert(rest@ =~= orig.subrange(k + 1, n as int));
        }
        if !filters.contains(p.community.as_str()) {
            out.push(p);
        }
    }
    proof {
        assert(orig.subrange(0, n as int) =~= orig);
    }
    out
}

/// Removes the communities that are filtered.
pub fn filter_communities(communities: Vec<Community>, filters: &FilterSet) -> (r: Vec<Community>)
    ensures
        r@ == kept_communities(communities@, filters@),
{
    let ghost orig = communities@;
    let ghost n = orig.len();
    let mut rest = communities;
    let mut out: Vec<Community> = Vec::new();
    proof {
        assert(orig.subrange(0, 0) =~= Seq::<Community>::empty());
        assert(orig.subrange(0, n as int) =~= orig);
    }
    while rest.len() > 0
        invariant
            rest@.len() <= n,
            n == orig.len(),
            rest@ == orig.subrange(n - rest@.len(), n as int),
            out@ == kept_communities(orig.subrange(0, n - rest@.len()), filters@),
        decreases rest@.len(),
    {
        let ghost k = n - rest@.len();
        let c = rest.remove(0);
        proof {
            let next = orig.subrange(0, k + 1);
            assert(next.drop_last() =~= orig.subrange(0, k));
            assert(next.last() == c);
            assert(rest@ =~= orig.subrange(k + 1, n as int));
        }
        if !filters.contains(c.name.as_str()) {
            out.push(c);
        }
    }
    proof {
        assert(orig.subrange(0, n as int) =~= orig);
    }
    out
}

/// Whether every post is flagged NSFW.
pub fn every_post_nsfw(posts: &Vec<Post>) -> (r: bool)
    ensures
        r == all_nsfw(posts@),
{
    let mut i: usize = 0;
    while i < posts.len()
        invariant
            i <= posts@.len(),
            forall|j: int| 0 <= j < i ==> (#[trigger] posts@[j]).nsfw,
        decreases posts@.len() - i,
    {
        if !posts[i].nsfw {
            return false;
        }
        i = i + 1;
    }
    true
}

/// What came of the post fetch.
#[derive(Debug)]
pub enum PostFetch {
    /// The target itself is filtered, so no posts were fetched.
    Skipped,
    /// The posts upstream returned, with its cursor for the next page.
    Fetched(Vec<Post>, String),
}

/// The outcome of a search as it is shown.
#[derive(Debug)]
pub struct SearchResult {
    pub posts: Vec<Post>,
    pub communities: Vec<Community>,
    /// Cursor of the next page, as upstream gave it.
    pub after: String,
    /// Every segment of the target is filtered; nothing was fetched.
    pub is_filtered: bool,
    /// Posts were fetched and the filter removed all of them.
    pub all_posts_filtered: bool,
    /// All posts left are NSFW and the user does not show NSFW posts.
    pub all_posts_hidden_nsfw: bool,
    /// No post is left after filtering.
    pub no_posts: bool,
}

/// `r` is the result of aggregating `fetch` and `communities` under `f`.
pub open spec fn aggregated(
    fetch: PostFetch,
    communities: Seq<Community>,
    f: Set<Seq<char>>,
    show_nsfw: bool,
    r: SearchResult,
) -> bool {
    &&& r.communities@ == kept_communities(communities, f)
    &&& match fetch {
        PostFetch::Skipped => {
            &&& r.posts@.len() == 0
            &&& r.after@.len() == 0
            &&& r.is_filtered
            &&& !r.all_posts_filtered
            &&& !r.all_posts_hidden_nsfw
            &&& !r.no_posts
        },
        PostFetch::Fetched(posts, after) => {
            let kept = kept_posts(posts@, f);
            &&& r.posts@ == kept
            &&& r.after@ == after@
            &&& !r.is_filtered
            &&& r.all_posts_filtered == (posts@.len() > 0 && kept.len() == 0)
            &&& r.no_posts == (kept.len() == 0)
            &&& r.all_posts_hidden_nsfw == (kept.len() > 0 && all_nsfw(kept) && !show_nsfw)
        },
    }
}

/// Applies the filter to the fetched posts and the found communities and derives
/// the flags that say why a result may be empty.
pub fn aggregate(fetch: PostFetch, communities: Vec<Community>, filters: &FilterSet, show_nsfw: bool) -> (r: SearchResult)
    ensures
        aggregated(fetch, communities@, filters@, show_nsfw, r),
{
    let communities = filter_communities(communities, filters);
    match fetch {
        PostFetch::Skipped => SearchResult {
            posts: Vec::new(),
            communities,
            after: String::new(),
            is_filtered: true,
            all_posts_filtered: false,
            all_posts_hidden_nsfw: false,
            no_posts: false,
        },
        PostFetch::Fetched(posts, after) => {
            let fetched_any = posts.len() > 0;
            let posts = filter_posts(posts, filters);
            let no_posts = posts.len() == 0;
            let all_posts_hidden_nsfw = !no_posts && every_post_nsfw(&posts) && !show_nsfw;
            SearchResult {
                posts,
                communities,
                after,
                is_filtered: false,
                all_posts_filtered: fetched_any && no_posts,
                all_posts_hidden_nsfw,
                no_posts,
            }
        },
    }
}

/// Aggregation depends on its inputs alone: two runs on the same inputs give the
/// same posts, communities, cursor and flags.
pub proof fn lemma_aggregate_deterministic(
    fetch: PostFetch,
    communities: Seq<Community>,
    f: Set<Seq<char>>,
    show_nsfw: bool,
    r1: SearchResult,
    r2: SearchResult,
)
    requires
        aggregated(fetch, communities, f, show_nsfw, r1),
        aggregated(fetch, communities, f, show_nsfw, r2),
    ensures
        r1.posts@ == r2.posts@,
        r1.communities@ == r2.communities@,
        r1.after@ == r2.after@,
        r1.is_filtered == r2.is_filtered,
        r1.all_posts_filtered == r2.all_posts_filtered,
        r1.all_posts_hidden_nsfw == r2.all_posts_hidden_nsfw,
        r1.no_posts == r2.no_posts,
{
    if fetch is Skipped {
        assert(r1.posts@ =~= r2.posts@);
        assert(r1.after@ =~= r2.after@);
    }
}

/// When no post is left, the finer flags agree with an empty list: nothing is
/// hidden as NSFW, and "all filtered" holds exactly when upstream returned posts.
pub proof fn lemma_no_posts_flags(
    fetch: PostFetch,
    communities: Seq<Community>,
    f: Set<Seq<char>>,
    show_nsfw: bool,
    r: SearchResult,
)
    requires
        aggregated(fetch, communities, f, show_nsfw, r),
        r.no_posts,
    ensures
        r.posts@.len() == 0,
        !r.all_posts_hidden_nsfw,
        !r.is_filtered,
        fetch matches PostFetch::Fetched(posts, _) && r.all_posts_filtered == (posts@.len() > 0),
{
}

} // verus!
