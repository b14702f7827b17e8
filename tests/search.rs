use search::aggregate::{aggregate, filter_communities, filter_posts, Post, PostFetch};
use search::community::{community_search_path, limit_for, pick_icon, Community};
use search::error::{classify_fetch_error, FetchError};
use search::fetch::{nsfw_param, posts_path};
use search::filter::{is_filtered_subject, FilterSet};
use search::plan::{complete_search, plan_search, RequestContext};
use search::query::{redirect, QueryNormalizer, QueryOutcome, RawParams, SearchQuery};

fn post(id: &str, community: &str, nsfw: bool) -> Post {
    Post { id: id.to_string(), community: community.to_string(), nsfw }
}

fn community(name: &str) -> Community {
    Community {
        name: name.to_string(),
        url: format!("/r/{name}/"),
        icon: String::new(),
        description: String::new(),
        subscribers: ("1.2k".to_string(), "1200".to_string()),
    }
}

fn filters(names: &[&str]) -> FilterSet {
    FilterSet::new(names.iter().map(|n| n.to_string()).collect())
}

fn raw(q: Option<&str>) -> RawParams {
    RawParams {
        q: q.map(|s| s.to_string()),
        sort: None,
        t: None,
        after: None,
        restrict_sr: None,
        typed: None,
    }
}

fn normalizer() -> QueryNormalizer {
    QueryNormalizer::new().expect("pattern compiles")
}

fn search_of(outcome: QueryOutcome) -> SearchQuery {
    match outcome {
        QueryOutcome::Search(s) => s,
        QueryOutcome::Redirect(l) => panic!("unexpected redirect to {l}"),
    }
}

fn redirect_of(outcome: QueryOutcome) -> String {
    match outcome {
        QueryOutcome::Redirect(l) => l,
        QueryOutcome::Search(s) => panic!("unexpected search for {}", s.query),
    }
}

fn ctx(target: &str, show_nsfw: bool) -> RequestContext {
    RequestContext {
        uri_path: format!("/r/{target}/search"),
        query_string: "q=cats".to_string(),
        target: target.to_string(),
        show_nsfw,
        sfw_only: false,
    }
}

#[test]
fn shortcuts_redirect() {
    assert_eq!(redirect("r/rust"), Some("/r/rust".to_string()));
    assert_eq!(redirect("user/alice"), Some("/user/alice".to_string()));
    assert_eq!(redirect("R/rust"), Some("/r/rust".to_string()));
    assert_eq!(redirect("u/alice"), Some("/user/alice".to_string()));
    assert_eq!(redirect("U/alice"), Some("/user/alice".to_string()));
    assert_eq!(redirect("cats"), None);
    assert_eq!(redirect("rust/r"), None);
}

#[test]
fn empty_query_redirects_to_root() {
    let n = normalizer();
    assert_eq!(redirect_of(n.normalize(raw(None))), "/");
    assert_eq!(redirect_of(n.normalize(raw(Some("")))), "/");
    assert_eq!(redirect_of(n.normalize(raw(Some("https://www.reddit.com/")))), "/");
    assert_eq!(redirect_of(n.normalize(raw(Some("http://reddit.com/")))), "/");
}

#[test]
fn platform_link_is_stripped() {
    let n = normalizer();
    assert_eq!(redirect_of(n.normalize(raw(Some("https://old.reddit.com/r/rust")))), "/r/rust");
    assert_eq!(redirect_of(n.normalize(raw(Some("https://www.reddit.com/user/alice")))), "/user/alice");
    let s = search_of(n.normalize(raw(Some("https://reddit.com/cats"))));
    assert_eq!(s.query, "cats");
}

#[test]
fn search_defaults_and_escaping() {
    let n = normalizer();
    let s = search_of(n.normalize(raw(Some("say \"hi\""))));
    assert_eq!(s.query, "say \"hi\"");
    assert_eq!(s.params.q, "say &quot;hi&quot;");
    assert_eq!(s.params.sort, "relevance");
    assert_eq!(s.params.t, "");
    assert_eq!(s.params.before, "");
    assert_eq!(s.params.after, "");
    assert!(!s.restricted);
}

#[test]
fn search_reads_parameters() {
    let n = normalizer();
    let r = RawParams {
        q: Some("cats".to_string()),
        sort: Some("new".to_string()),
        t: Some("week".to_string()),
        after: Some("t3_abc".to_string()),
        restrict_sr: Some("on".to_string()),
        typed: Some("sr_user".to_string()),
    };
    let s = search_of(n.normalize(r));
    assert_eq!(s.params.sort, "new");
    assert_eq!(s.params.t, "week");
    assert_eq!(s.params.before, "t3_abc");
    assert_eq!(s.params.after, "");
    assert_eq!(s.params.restrict_sr, "on");
    assert_eq!(s.params.typed, "sr_user");
    assert!(s.restricted);
}

#[test]
fn filtered_subject_segments() {
    let f = filters(&["aww", "pics"]);
    assert!(is_filtered_subject("aww", &f));
    assert!(is_filtered_subject("aww+pics", &f));
    assert!(!is_filtered_subject("aww+rust", &f));
    assert!(!is_filtered_subject("rust", &f));
    assert!(!is_filtered_subject("", &f));
    assert!(!is_filtered_subject("aww+", &f));
    assert!(!is_filtered_subject("Aww", &f));
    assert!(is_filtered_subject("", &filters(&[""])));
}

#[test]
fn filter_set_contains() {
    let f = filters(&["aww"]);
    assert!(f.contains("aww"));
    assert!(!f.contains("aw"));
    assert!(!filters(&[]).contains("aww"));
}

#[test]
fn posts_and_communities_filtered() {
    let f = filters(&["pics"]);
    let kept = filter_posts(vec![post("a", "aww", false), post("b", "pics", false), post("c", "cats", true)], &f);
    let ids: Vec<&str> = kept.iter().map(|p| p.id.as_str()).collect();
    assert_eq!(ids, vec!["a", "c"]);
    let cs = filter_communities(vec![community("pics"), community("aww")], &f);
    assert_eq!(cs.len(), 1);
    assert_eq!(cs[0].name, "aww");
}

#[test]
fn some_nsfw_posts_are_not_all_hidden() {
    let posts = vec![post("a", "aww", true), post("b", "aww", false)];
    let r = complete_search(Some(Ok((posts, "t3_next".to_string()))), vec![], &filters(&[]), false).unwrap();
    assert!(!r.no_posts);
    assert!(!r.all_posts_filtered);
    assert!(!r.all_posts_hidden_nsfw);
    assert!(!r.is_filtered);
    assert_eq!(r.posts.len(), 2);
    assert_eq!(r.after, "t3_next");
}

#[test]
fn all_nsfw_posts_hidden() {
    let posts = vec![post("a", "aww", true), post("b", "aww", true)];
    let r = complete_search(Some(Ok((posts, String::new()))), vec![], &filters(&[]), false).unwrap();
    assert!(r.all_posts_hidden_nsfw);
    assert!(!r.no_posts);
    let posts = vec![post("a", "aww", true), post("b", "aww", true)];
    let r = complete_search(Some(Ok((posts, String::new()))), vec![], &filters(&[]), true).unwrap();
    assert!(!r.all_posts_hidden_nsfw);
}

#[test]
fn filtered_target_skips_post_fetch() {
    let n = normalizer();
    let s = search_of(n.normalize(raw(Some("cats"))));
    let f = filters(&["aww"]);
    let plan = plan_search(&s, &ctx("aww", false), &f);
    assert!(plan.post_fetch.is_none());
    assert!(plan.community_search.is_some());
    let r = complete_search(None, vec![community("aww"), community("cats")], &f, false).unwrap();
    assert!(r.is_filtered);
    assert!(r.posts.is_empty());
    assert!(!r.no_posts);
    assert!(!r.all_posts_filtered);
    assert!(!r.all_posts_hidden_nsfw);
    assert_eq!(r.after, "");
    assert_eq!(r.communities.len(), 1);
    assert_eq!(r.communities[0].name, "cats");
}

#[test]
fn unfiltered_target_fetches_posts() {
    let n = normalizer();
    let s = search_of(n.normalize(raw(Some("cats"))));
    let plan = plan_search(&s, &ctx("aww+pics", true), &filters(&["aww"]));
    assert_eq!(plan.post_fetch, Some("/r/aww%2Bpics/search.json?q=cats&include_over_18=on&raw_json=1".to_string()));
    assert_eq!(plan.community_search, Some("/subreddits/search.json?q=cats&limit=3".to_string()));
}

#[test]
fn restricted_search_has_no_community_search() {
    let n = normalizer();
    let mut r = raw(Some("cats"));
    r.restrict_sr = Some("on".to_string());
    let s = search_of(n.normalize(r));
    let plan = plan_search(&s, &ctx("aww", false), &filters(&[]));
    assert!(plan.community_search.is_none());
    assert!(plan.post_fetch.is_some());
}

#[test]
fn all_posts_filtered_flag() {
    let posts = vec![post("a", "pics", false)];
    let r = complete_search(Some(Ok((posts, String::new()))), vec![], &filters(&["pics"]), false).unwrap();
    assert!(r.all_posts_filtered);
    assert!(r.no_posts);
    assert!(!r.all_posts_hidden_nsfw);
    let r = complete_search(Some(Ok((vec![], String::new()))), vec![], &filters(&["pics"]), false).unwrap();
    assert!(!r.all_posts_filtered);
    assert!(r.no_posts);
}

#[test]
fn aggregation_is_repeatable() {
    let make = || vec![post("a", "aww", true), post("b", "pics", false), post("c", "cats", true)];
    let f = filters(&["pics"]);
    let r1 = aggregate(PostFetch::Fetched(make(), "x".to_string()), vec![community("pics")], &f, false);
    let r2 = aggregate(PostFetch::Fetched(make(), "x".to_string()), vec![community("pics")], &f, false);
    let ids = |v: &Vec<Post>| v.iter().map(|p| p.id.clone()).collect::<Vec<_>>();
    assert_eq!(ids(&r1.posts), ids(&r2.posts));
    assert_eq!(r1.after, r2.after);
    assert_eq!(r1.communities.len(), r2.communities.len());
    assert_eq!(
        (r1.is_filtered, r1.all_posts_filtered, r1.all_posts_hidden_nsfw, r1.no_posts),
        (r2.is_filtered, r2.all_posts_filtered, r2.all_posts_hidden_nsfw, r2.no_posts)
    );
    assert!(r1.all_posts_hidden_nsfw);
}

#[test]
fn community_search_limit() {
    assert_eq!(community_search_path("cat", "sr_user"), "/subreddits/search.json?q=cat&limit=50");
    assert_eq!(community_search_path("cat", ""), "/subreddits/search.json?q=cat&limit=3");
    assert_eq!(community_search_path("big cat", "link"), "/subreddits/search.json?q=big+cat&limit=3");
    assert_eq!(limit_for("sr_user"), "50");
    assert_eq!(limit_for("sr"), "3");
}

#[test]
fn quarantined_fetch_is_a_notice() {
    let r = complete_search(Some(Err("quarantined".to_string())), vec![], &filters(&[]), false);
    match r {
        Err(e) => {
            assert!(matches!(e, FetchError::Quarantined));
            assert!(e.needs_acknowledgment());
            assert_eq!(e.message(), "quarantined");
        }
        Ok(_) => panic!("expected an error"),
    }
}

#[test]
fn fetch_errors_classified() {
    assert!(matches!(classify_fetch_error("gated".to_string()), FetchError::Gated));
    let e = classify_fetch_error("timed out".to_string());
    assert!(!e.needs_acknowledgment());
    assert_eq!(e.message(), "timed out");
    assert!(matches!(classify_fetch_error("Quarantined".to_string()), FetchError::Other(_)));
}

#[test]
fn nsfw_parameter() {
    assert_eq!(nsfw_param(true, false), "&include_over_18=on");
    assert_eq!(nsfw_param(true, true), "");
    assert_eq!(nsfw_param(false, false), "");
    assert_eq!(posts_path("/search", "q=a+b", false, false), "/search.json?q=a+b&raw_json=1");
}

#[test]
fn icon_fallback() {
    assert_eq!(pick_icon(Some("https://a/icon.png".to_string()), "https://b/img.png".to_string()), "https://a/icon.png");
    assert_eq!(pick_icon(None, "https://b/img.png".to_string()), "https://b/img.png");
}
