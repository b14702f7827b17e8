use vstd::prelude::*;
use vstd::string::*;
use crate::text::same_text;

verus! {

/// Why fetching the posts of a search from the upstream content API failed.
#[derive(Debug)]
pub enum FetchError {
    /// The target community is quarantined and must be acknowledged first.
    Quarantined,
    /// The target community is gated and must be acknowledged first.
    Gated,
    /// Any other upstream failure, with its message.
    Other(String),
}

/// The upstream message for a quarantined community.
pub open spec fn quarantined_text() -> Seq<char> {
    seq!['q', 'u', 'a', 'r', 'a', 'n', 't', 'i', 'n', 'e', 'd']
}

/// The upstream message for a gated community.
pub open spec fn gated_text() -> Seq<char> {
    seq!['g', 'a', 't', 'e', 'd']
}

/// Turns the upstream transport's failure message into a tagged error.
pub fn classify_fetch_error(msg: String) -> (r: FetchError)
    ensures
        msg@ == quarantined_text() ==> r is Quarantined,
        msg@ == gated_text() ==> r is Gated,
        msg@ != quarantined_text() && msg@ != gated_text() ==> (r matches FetchError::Other(m)
            && m@ == msg@),
{
    proof {
        reveal_strlit("quarantined");
        reveal_strlit("gated");
        assert("quarantined"@ =~= quarantined_text());
        assert("gated"@ =~= gated_text());
    }
    if same_text(msg.as_str(), "quarantined") {
        FetchError::Quarantined
    } else if same_text(msg.as_str(), "gated") {
        FetchError::Gated
    } else {
        FetchError::Other(msg)
    }
}

impl FetchError {
    /// Whether the failure calls for an acknowledgment notice rather than an error page.
    pub fn needs_acknowledgment(&self) -> (r: bool)
        ensures
            r == (self is Quarantined || self is Gated),
    {
        match self {
            FetchError::Quarantined => true,
            FetchError::Gated => true,
            FetchError::Other(_) => false,
        }
    }

    /// The upstream message that this error stands for.
    pub fn message(&self) -> (r: String)
        ensures
            self is Quarantined ==> r@ == quarantined_text(),
            self is Gated ==> r@ == gated_text(),
            self matches FetchError::Other(m) ==> r@ == m@,
    {
        proof {
            reveal_strlit("quarantined");
            reveal_strlit("gated");
            assert("quarantined"@ =~= quarantined_text());
            assert("gated"@ =~= gated_text());
        }
        match self {
            FetchError::Quarantined => String::from_str("quarantined"),
            FetchError::Gated => String::from_str("gated"),
            FetchError::Other(m) => m.clone(),
        }
    }
}

} // verus!
