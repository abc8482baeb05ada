use vstd::prelude::*;

verus! {

/// `i` is the first position of `s` whose element satisfies `f`.
pub open spec fn is_first<A>(s: Seq<A>, f: spec_fn(A) -> bool, i: int) -> bool {
    &&& 0 <= i < s.len()
    &&& f(s[i])
    &&& forall|j: int| 0 <= j < i ==> !f(s[j])
}

/// The first position of `s` whose element satisfies `f`, or `s.len()` if there is none.
pub open spec fn first_index<A>(s: Seq<A>, f: spec_fn(A) -> bool) -> int {
    if exists|i: int| is_first(s, f, i) {
        choose|i: int| is_first(s, f, i)
    } else {
        s.len() as int
    }
}

pub proof fn lemma_first_index_at<A>(s: Seq<A>, f: spec_fn(A) -> bool, i: int)
    requires
        is_first(s, f, i),
    ensures
        first_index(s, f) == i,
{
    let k = choose|k: int| is_first(s, f, k);
    assert(is_first(s, f, k));
    if k < i {
        assert(!f(s[k]));
    }
    if i < k {
        assert(!f(s[i]));
    }
}

pub proof fn lemma_first_index_none<A>(s: Seq<A>, f: spec_fn(A) -> bool)
    requires
        forall|j: int| 0 <= j < s.len() ==> !f(s[j]),
    ensures
        first_index(s, f) == s.len(),
{
    if exists|i: int| is_first(s, f, i) {
        let k = choose|k: int| is_first(s, f, k);
        assert(f(s[k]));
    }
}

pub proof fn lemma_first_index_found<A>(s: Seq<A>, f: spec_fn(A) -> bool, i: int)
    requires
        0 <= i < s.len(),
        f(s[i]),
    ensures
        0 <= first_index(s, f) <= i,
        f(s[first_index(s, f)]),
    decreases i,
{
    if exists|j: int| 0 <= j < i && f(s[j]) {
        let j = choose|j: int| 0 <= j < i && f(s[j]);
        lemma_first_index_found(s, f, j);
    } else {
        lemma_first_index_at(s, f, i);
    }
}

pub proof fn lemma_first_index_range<A>(s: Seq<A>, f: spec_fn(A) -> bool)
    ensures
        0 <= first_index(s, f) <= s.len(),
        first_index(s, f) < s.len() ==> is_first(s, f, first_index(s, f)),
        first_index(s, f) == s.len() ==> forall|j: int| 0 <= j < s.len() ==> !f(s[j]),
{
    if exists|i: int| is_first(s, f, i) {
        let k = choose|k: int| is_first(s, f, k);
        assert(is_first(s, f, k));
    } else {
        assert forall|j: int| 0 <= j < s.len() implies !f(s[j]) by {
            if f(s[j]) {
                lemma_first_index_found(s, f, j);
                let k = first_index(s, f);
                assert(is_first(s, f, k));
            }
        }
    }
}

} // verus!
