use vstd::prelude::*;
use vstd::string::*;

verus! {

/// The community names whose content the user has chosen to hide (case-sensitive).
pub struct FilterSet {
    pub names: Vec<String>,
}

impl View for FilterSet {
    type V = Set<Seq<char>>;

    open spec fn view(&self) -> Set<Seq<char>> {
        Set::new(|s: Seq<char>| exists|i: int| 0 <= i < self.names@.len() && #[trigger] self.names@[i]@ == s)
    }
}

impl FilterSet {
    /// A filter set over the given names.
    pub fn new(names: Vec<String>) -> (r: FilterSet)
        ensures
            r.names@ == names@,
    {
        FilterSet { names }
    }

    /// Whether `name` is filtered.
    pub fn contains(&self, name: &str) -> (r: bool)
        ensures
            r == self@.contains(name@),
    {
        let mut i: usize = 0;
        while i < self.names.len()
            invariant
                i <= self.names@.len(),
                forall|j: int| 0 <= j < i ==> #[trigger] self.names@[j]@ != name@,
            decreases self.names@.len() - i,
        {
            if crate::text::same_text(self.names[i].as_str(), name) {
                assert(self@.contains(name@));
                return true;
            }
            i = i + 1;
        }
        false
    }
}

/// The `+`-separated segments of a target such as `rust+programming`.
pub open spec fn segments(t: Seq<char>) -> Seq<Seq<char>>
    decreases t.len(),
{
    if t.len() == 0 {
        seq![Seq::empty()]
    } else {
        let prev = segments(t.drop_last());
        if t.last() == '+' {
            prev.push(Seq::empty())
        } else {
            prev.update(prev.len() - 1, prev.last().push(t.last()))
        }
    }
}

/// A target is filtered when every one of its segments is.
pub open spec fn subject_filtered(t: Seq<char>, f: Set<Seq<char>>) -> bool {
    forall|i: int| 0 <= i < segments(t).len() ==> f.contains(#[trigger] segments(t)[i])
}

/// Whether every `+`-separated segment of `target` is filtered.
pub fn is_filtered_subject(target: &str, filters: &FilterSet) -> (r: bool)
    ensures
        r == subject_filtered(target@, filters@),
{
    let n = target.unicode_len();
    let mut cur = String::new();
    let mut done_ok = true;
    let mut i: usize = 0;
    proof {
        assert(target@.subrange(0, 0) =~= Seq::<char>::empty());
    }
    while i < n
        invariant
            n == target@.len(),
            i <= n,
            segments(target@.subrange(0, i as int)).len() >= 1,
            cur@ == segments(target@.subrange(0, i as int)).last(),
            done_ok == (forall|j: int|
                0 <= j < segments(target@.subrange(0, i as int)).len() - 1 ==> filters@.contains(
                    #[trigger] segments(target@.subrange(0, i as int))[j],
                )),
        decreases n - i,
    {
        let ghost pre = target@.subrange(0, i as int);
        let ghost next = target@.subrange(0, i as int + 1);
        let c = target.get_char(i);
        proof {
            assert(next.drop_last() =~= pre);
            assert(next.last() == c);
        }
        if c == '+' {
            let ok = filters.contains(cur.as_str());
            proof {
                let sp = segments(pre);
                let sn = segments(next);
                assert(sn == sp.push(Seq::<char>::empty()));
                assert forall|j: int| 0 <= j < sn.len() - 1 implies #[trigger] sn[j] == sp[j] by {}
                if done_ok && ok {
                    assert forall|j: int| 0 <= j < sn.len() - 1 implies filters@.contains(#[trigger] sn[j]) by {
                        if j < sp.len() - 1 {
                            assert(filters@.contains(sp[j]));
                        }
                    }
                } else if !ok {
                    assert(sn[sp.len() - 1] == cur@);
                } else {
                    let j = choose|j: int| 0 <= j < sp.len() - 1 && !filters@.contains(#[trigger] sp[j]);
                    assert(!filters@.contains(sn[j]));
                }
            }
            done_ok = done_ok && ok;
            cur = String::new();
        } else {
            let piece = target.substring_char(i, i + 1);
            proof {
                assert(piece@ =~= seq![c]);
            }
            cur.append(piece);
            proof {
                let sp = segments(pre);
                let sn = segments(next);
                assert(sn == sp.update(sp.len() - 1, sp.last().push(c)));
                assert(cur@ =~= sn.last());
                assert forall|j: int| 0 <= j < sn.len() - 1 implies #[trigger] sn[j] == sp[j] by {}
                if !done_ok {
                    let j = choose|j: int| 0 <= j < sp.len() - 1 && !filters@.contains(#[trigger] sp[j]);
                    assert(!filters@.contains(sn[j]));
                } else {
                    assert forall|j: int| 0 <= j < sn.len() - 1 implies filters@.contains(#[trigger] sn[j]) by {
                        assert(filters@.contains(sp[j]));
                    }
                }
            }
        }
        i = i + 1;
    }
    let ok = filters.contains(cur.as_str());
    proof {
        assert(target@.subrange(0, n as int) =~= target@);
        let s = segments(target@);
        if done_ok && ok {
            assert forall|j: int| 0 <= j < s.len() implies filters@.contains(#[trigger] s[j]) by {
                if j < s.len() - 1 {
                    assert(filters@.contains(s[j]));
                }
            }
        }
        if !ok {
            assert(!filters@.contains(s[s.len() - 1]));
        }
    }
    done_ok && ok
}

} // verus!
