use vstd::prelude::*;
use vstd::string::*;
use crate::text::{after_first, has_prefix, replace_all, replace_char, starts_with};

verus! {

#[verifier::external_type_specification]
#[verifier::external_body]
pub struct ExRegex(regex::Regex);

/// Matches a link to the platform itself: an optional scheme, optional subdomains,
/// the platform's domain and the slash after it.
pub const PLATFORM_URL_PATTERN: &'static str = "^https?://([^\\./]+\\.)*reddit.com/";

/// What is left of a query once a leading link to the platform is removed.
pub uninterp spec fn platform_url_stripped(q: Seq<char>) -> Seq<char>;

/// Relies on regex::Regex::new: compiles a pattern, or fails on an invalid one.
#[verifier::external_body]
fn compile_pattern(pattern: &str) -> (r: Option<regex::Regex>) {
    regex::Regex::new(pattern).ok()
}

/// Where a query that is really a navigation shortcut leads, if it is one.
pub open spec fn redirect_for(q: Seq<char>) -> Option<Seq<char>> {
    if q.len() == 0 {
        Some(seq!['/'])
    } else if starts_with(q, seq!['r', '/']) || starts_with(q, seq!['u', 's', 'e', 'r', '/']) {
        Some(seq!['/'] + q)
    } else if starts_with(q, seq!['R', '/']) {
        Some(seq!['/', 'r'] + q.drop_first())
    } else if starts_with(q, seq!['u', '/']) || starts_with(q, seq!['U', '/']) {
        Some(seq!['/', 'u', 's', 'e', 'r'] + q.drop_first())
    } else {
        None
    }
}

/// A query made safe to echo into an HTML attribute: each `"` becomes `&quot;`.
pub open spec fn quotes_escaped(q: Seq<char>) -> Seq<char> {
    replace_char(q, '"', seq!['&', 'q', 'u', 'o', 't', ';'])
}

/// The value of an optional parameter, or `default` where it is absent.
pub open spec fn param_or(p: Option<String>, default: Seq<char>) -> Seq<char> {
    match p {
        Some(s) => s@,
        None => default,
    }
}

/// The search parameters as they are shown back to the user.
#[derive(Debug)]
pub struct SearchParams {
    pub q: String,
    pub sort: String,
    pub t: String,
    pub before: String,
    pub after: String,
    pub restrict_sr: String,
    pub typed: String,
}

/// The query-string parameters of a search request, each present or not.
pub struct RawParams {
    pub q: Option<String>,
    pub sort: Option<String>,
    pub t: Option<String>,
    pub after: Option<String>,
    pub restrict_sr: Option<String>,
    pub typed: Option<String>,
}

/// A search that is to be run.
#[derive(Debug)]
pub struct SearchQuery {
    /// The query with any leading platform link removed; never empty.
    pub query: String,
    /// Whether the search is restricted to the current community.
    pub restricted: bool,
    pub params: SearchParams,
}

/// What a request asks for: a redirect, or a search.
#[derive(Debug)]
pub enum QueryOutcome {
    Redirect(String),
    Search(SearchQuery),
}

/// The search that `raw` asks for, once its query `q` is known not to be a shortcut.
pub open spec fn search_for(raw: RawParams, q: Seq<char>, s: SearchQuery) -> bool {
    &&& s.query@ == q
    &&& s.restricted == raw.restrict_sr.is_some()
    &&& s.params.q@ == quotes_escaped(q)
    &&& s.params.sort@ == param_or(raw.sort, seq!['r', 'e', 'l', 'e', 'v', 'a', 'n', 'c', 'e'])
    &&& s.params.t@ == param_or(raw.t, Seq::empty())
    &&& s.params.before@ == param_or(raw.after, Seq::empty())
    &&& s.params.after@ == Seq::<char>::empty()
    &&& s.params.restrict_sr@ == param_or(raw.restrict_sr, Seq::empty())
    &&& s.params.typed@ == param_or(raw.typed, Seq::empty())
}

/// The query of `raw` after the platform link is removed.
pub open spec fn stripped_query(raw: RawParams) -> Seq<char> {
    platform_url_stripped(param_or(raw.q, Seq::empty()))
}

/// Classifies search requests; holds the compiled platform-link pattern.
pub struct QueryNormalizer {
    url_match: regex::Regex,
}

fn param_value(p: Option<String>, default: &str) -> (r: String)
    ensures
        r@ == param_or(p, default@),
{
    match p {
        Some(s) => s,
        None => String::from_str(default),
    }
}

impl QueryNormalizer {
    /// Compiles the platform-link pattern; `None` only if the regex engine rejects it.
    pub fn new() -> (r: Option<QueryNormalizer>) {
        match compile_pattern(PLATFORM_URL_PATTERN) {
            Some(re) => Some(QueryNormalizer { url_match: re }),
            None => None,
        }
    }

    /// Relies on regex::Regex::replace: removes the leftmost-first match of the
    /// platform-link pattern, which is anchored at the start of `q`.
    #[verifier::external_body]
    fn strip_platform_url(&self, q: &str) -> (r: String)
        ensures
            r@ == platform_url_stripped(q@),
    {
        self.url_match.replace(q, "").into_owned()
    }

    /// Classifies a request: a redirect for an empty query or a navigation shortcut,
    /// else the search to run.
    pub fn normalize(&self, raw: RawParams) -> (r: QueryOutcome)
        ensures
            match redirect_for(stripped_query(raw)) {
                Some(loc) => r matches QueryOutcome::Redirect(l) && l@ == loc,
                None => r matches QueryOutcome::Search(s) && search_for(raw, stripped_query(raw), s),
            },
    {
        proof {
            reveal_strlit("");
            assert(""@ =~= Seq::<char>::empty());
        }
        let q_raw = param_value(raw.q, "");
        let query = self.strip_platform_url(q_raw.as_str());
        match redirect(query.as_str()) {
            Some(loc) => QueryOutcome::Redirect(loc),
            None => {
                let restricted = raw.restrict_sr.is_some();
                proof {
                    reveal_strlit("\"");
                    reveal_strlit("&quot;");
                    reveal_strlit("relevance");
                    assert("&quot;"@ =~= seq!['&', 'q', 'u', 'o', 't', ';']);
                    assert("relevance"@ =~= seq!['r', 'e', 'l', 'e', 'v', 'a', 'n', 'c', 'e']);
                }
                let escaped = replace_all(query.as_str(), "\"", "&quot;");
                let params = SearchParams {
                    q: escaped,
                    sort: param_value(raw.sort, "relevance"),
                    t: param_value(raw.t, ""),
                    before: param_value(raw.after, ""),
                    after: String::new(),
                    restrict_sr: param_value(raw.restrict_sr, ""),
                    typed: param_value(raw.typed, ""),
                };
                let s = SearchQuery { query, restricted, params };
                proof {
                    assert(s.params.q@ == quotes_escaped(s.query@));
                }
                QueryOutcome::Search(s)
            },
        }
    }
}

/// Where `q` redirects to, if it is empty or a navigation shortcut.
pub fn redirect(q: &str) -> (r: Option<String>)
    ensures
        match redirect_for(q@) {
            Some(loc) => r matches Some(l) && l@ == loc,
            None => r is None,
        },
{
    proof {
        reveal_strlit("/");
        reveal_strlit("r/");
        reveal_strlit("user/");
        reveal_strlit("R/");
        reveal_strlit("u/");
        reveal_strlit("U/");
        reveal_strlit("/r");
        reveal_strlit("/user");
        assert("/"@ =~= seq!['/']);
        assert("r/"@ =~= seq!['r', '/']);
        assert("user/"@ =~= seq!['u', 's', 'e', 'r', '/']);
        assert("R/"@ =~= seq!['R', '/']);
        assert("u/"@ =~= seq!['u', '/']);
        assert("U/"@ =~= seq!['U', '/']);
        assert("/r"@ =~= seq!['/', 'r']);
        assert("/user"@ =~= seq!['/', 'u', 's', 'e', 'r']);
    }
    if q.unicode_len() == 0 {
        Some(String::from_str("/"))
    } else if has_prefix(q, "r/") || has_prefix(q, "user/") {
        let mut loc = String::from_str("/");
        loc.append(q);
        Some(loc)
    } else if has_prefix(q, "R/") {
        let mut loc = String::from_str("/r");
        let rest = after_first(q);
        loc.append(rest.as_str());
        Some(loc)
    } else if has_prefix(q, "u/") || has_prefix(q, "U/") {
        let mut loc = String::from_str("/user");
        let rest = after_first(q);
        loc.append(rest.as_str());
        Some(loc)
    } else {
        None
    }
}

/// A query that opens with `r/`, `user/`, `R/`, `u/` or `U/` is a navigation
/// shortcut: it always redirects, so no search and no fetch follows.
pub proof fn lemma_shortcuts_redirect(q: Seq<char>)
    requires
        starts_with(q, seq!['r', '/']) || starts_with(q, seq!['u', 's', 'e', 'r', '/'])
            || starts_with(q, seq!['R', '/']) || starts_with(q, seq!['u', '/'])
            || starts_with(q, seq!['U', '/']),
    ensures
        redirect_for(q) is Some,
{
}

/// A query that is empty once the platform link is removed redirects to the site root.
pub proof fn lemma_empty_query_redirects_to_root(raw: RawParams)
    requires
        stripped_query(raw).len() == 0,
    ensures
        redirect_for(stripped_query(raw)) == Some(seq!['/']),
{
}

} // verus!
