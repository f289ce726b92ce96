//! Paths as sequences of components, the way a Unix path is read: a leading
//! `/` is the root component, separators are `/`, empty and `.` segments are
//! skipped except a leading `.` of a relative path.

use vstd::prelude::*;
use vstd::string::StrSliceExecFns;

verus! {

/// The segments of `s` between separators, empty ones included.
pub open spec fn segments(s: Seq<char>) -> Seq<Seq<char>>
    decreases s.len(),
{
    if s.len() == 0 {
        seq![Seq::<char>::empty()]
    } else {
        let init = segments(s.drop_last());
        if s.last() == '/' {
            init.push(Seq::<char>::empty())
        } else {
            init.update(init.len() - 1, init.last().push(s.last()))
        }
    }
}

/// A segment that names something: neither empty nor `.`.
pub open spec fn is_named(seg: Seq<char>) -> bool {
    seg.len() > 0 && seg != seq!['.']
}

/// The component that a path starts with, if any: the root, or `.` at the
/// start of a relative path.
pub open spec fn leading(s: Seq<char>) -> Seq<Seq<char>> {
    if s.len() > 0 && s[0] == '/' {
        seq![seq!['/']]
    } else if s.len() > 0 && s[0] == '.' && (s.len() == 1 || s[1] == '/') {
        seq![seq!['.']]
    } else {
        Seq::empty()
    }
}

/// The named segments of `ss`, in order.
pub open spec fn keep_named(ss: Seq<Seq<char>>) -> Seq<Seq<char>> {
    ss.filter(|seg: Seq<char>| is_named(seg))
}

/// The components of the path `s`.
pub open spec fn components(s: Seq<char>) -> Seq<Seq<char>> {
    leading(s) + keep_named(segments(s))
}

/// `base` is a leading run of whole components of `p`.
pub open spec fn starts_with(p: Seq<char>, base: Seq<char>) -> bool {
    components(base).is_prefix_of(components(p))
}

/// The number of components of the path `s`.
pub open spec fn depth(s: Seq<char>) -> nat {
    components(s).len()
}

/// The characters of each vector of `v`.
pub open spec fn views(v: Seq<Vec<char>>) -> Seq<Seq<char>> {
    v.map_values(|x: Vec<char>| x@)
}

proof fn lemma_segments_nonempty(s: Seq<char>)
    ensures
        segments(s).len() >= 1,
    decreases s.len(),
{
    if s.len() > 0 {
        lemma_segments_nonempty(s.drop_last());
    }
}

proof fn lemma_keep_named_push(ss: Seq<Seq<char>>, seg: Seq<char>)
    ensures
        keep_named(ss.push(seg)) == if is_named(seg) {
            keep_named(ss).push(seg)
        } else {
            keep_named(ss)
        },
{
    reveal(Seq::filter);
    assert(ss.push(seg).drop_last() =~= ss);
}

fn named(seg: &Vec<char>) -> (r: bool)
    ensures
        r == is_named(seg@),
{
    if seg.len() == 0 {
        false
    } else if seg.len() == 1 && seg[0] == '.' {
        assert(seg@ =~= seq!['.']);
        false
    } else {
        assert(seg@.len() == 1 ==> seg@[0] != '.');
        true
    }
}

/// The components of `s`, each as its characters.
pub fn path_components(s: &str) -> (r: Vec<Vec<char>>)
    ensures
        views(r@) == components(s@),
{
    let n = s.unicode_len();
    let mut r: Vec<Vec<char>> = Vec::new();
    if n > 0 && s.get_char(0) == '/' {
        r.push(vec!['/']);
        assert(views(r@)[0] =~= seq!['/']);
    } else if n > 0 && s.get_char(0) == '.' && (n == 1 || s.get_char(1) == '/') {
        r.push(vec!['.']);
        assert(views(r@)[0] =~= seq!['.']);
    }
    assert(views(r@) =~= leading(s@));
    let ghost lead = leading(s@);
    let mut cur: Vec<char> = Vec::new();
    let mut i: usize = 0;
    proof {
        assert(s@.take(0) =~= Seq::<char>::empty());
        assert(segments(s@.take(0)).drop_last() =~= Seq::<Seq<char>>::empty());
    }
    while i < n
        invariant
            n == s@.len(),
            i <= n,
            lead == leading(s@),
            segments(s@.take(i as int)).last() == cur@,
            views(r@) == lead + keep_named(segments(s@.take(i as int)).drop_last()),
        decreases n - i,
    {
        let c = s.get_char(i);
        let ghost prev = segments(s@.take(i as int));
        proof {
            lemma_segments_nonempty(s@.take(i as int));
            assert(s@.take(i + 1).drop_last() =~= s@.take(i as int));
        }
        if c == '/' {
            let keep = named(&cur);
            proof {
                let next = segments(s@.take(i + 1));
                assert(next.drop_last() =~= prev.drop_last().push(cur@));
                assert(next.drop_last().push(cur@).drop_last() =~= next.drop_last());
                assert(prev.drop_last().push(cur@).drop_last() =~= prev.drop_last());
            }
            proof {
                lemma_keep_named_push(prev.drop_last(), cur@);
            }
            let ghost before = r@;
            if keep {
                r.push(cur);
                proof {
                    assert(views(r@) =~= views(before).push(cur@));
                }
            }
            cur = Vec::new();
            proof {
                let next = segments(s@.take(i + 1));
                assert(next.last() =~= cur@);
                assert(views(r@) =~= lead + keep_named(next.drop_last()));
            }
        } else {
            cur.push(c);
            proof {
                let next = segments(s@.take(i + 1));
                assert(next.drop_last() =~= prev.drop_last());
                assert(next.last() =~= cur@);
            }
        }
        i = i + 1;
    }
    proof {
        assert(s@.take(n as int) =~= s@);
        let all = segments(s@);
        lemma_segments_nonempty(s@);
        assert(all =~= all.drop_last().push(cur@));
    }
    let keep = named(&cur);
    proof {
        lemma_keep_named_push(segments(s@).drop_last(), cur@);
    }
    let ghost before = r@;
    if keep {
        r.push(cur);
        proof {
            assert(views(r@) =~= views(before).push(cur@));
        }
    }
    proof {
        let all = segments(s@);
        assert(views(r@) =~= lead + keep_named(all));
    }
    r
}

fn same_chars(a: &Vec<char>, b: &Vec<char>) -> (r: bool)
    ensures
        r == (a@ == b@),
{
    if a.len() != b.len() {
        return false;
    }
    let mut i: usize = 0;
    while i < a.len()
        invariant
            a@.len() == b@.len(),
            i <= a@.len(),
            forall|j: int| 0 <= j < i ==> a@[j] == b@[j],
        decreases a@.len() - i,
    {
        if a[i] != b[i] {
            return false;
        }
        i = i + 1;
    }
    assert(a@ =~= b@);
    true
}

/// Whether the components `base` are a leading run of the components `p`.
pub fn components_start_with(p: &Vec<Vec<char>>, base: &Vec<Vec<char>>) -> (r: bool)
    ensures
        r == views(base@).is_prefix_of(views(p@)),
{
    if base.len() > p.len() {
        return false;
    }
    let mut i: usize = 0;
    while i < base.len()
        invariant
            base@.len() <= p@.len(),
            i <= base@.len(),
            forall|j: int| 0 <= j < i ==> views(base@)[j] == views(p@)[j],
        decreases base@.len() - i,
    {
        if !same_chars(&p[i], &base[i]) {
            assert(views(p@).subrange(0, base@.len() as int)[i as int] != views(base@)[i as int]);
            return false;
        }
        i = i + 1;
    }
    assert(views(base@) =~= views(p@).take(base@.len() as int));
    true
}

} // verus!
