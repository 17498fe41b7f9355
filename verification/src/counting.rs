//! Counting violations of one kind in a report.

use vstd::prelude::*;
use crate::error::ValidationError;
use crate::model::{gather, one_if};

verus! {

/// 1 if `c`, else 0.
pub open spec fn unit(c: bool) -> nat {
    if c {
        1
    } else {
        0
    }
}

/// How many violations in `s` satisfy `p`.
pub open spec fn tally(s: Seq<ValidationError>, p: spec_fn(ValidationError) -> bool) -> nat
    decreases s.len(),
{
    if s.len() == 0 {
        0
    } else {
        tally(s.drop_last(), p) + unit(p(s.last()))
    }
}

/// How many of the levels `0..n` satisfy `c`.
pub open spec fn hits(n: int, c: spec_fn(int) -> bool) -> nat
    decreases n,
{
    if n <= 0 {
        0
    } else {
        hits(n - 1, c) + unit(c(n - 1))
    }
}

/// A count over a joined report is the sum of the counts over its parts.
pub proof fn lemma_tally_concat(
    a: Seq<ValidationError>,
    b: Seq<ValidationError>,
    p: spec_fn(ValidationError) -> bool,
)
    ensures
        tally(a + b, p) == tally(a, p) + tally(b, p),
    decreases b.len(),
{
    if b.len() == 0 {
        assert(a + b =~= a);
    } else {
        assert((a + b).drop_last() =~= a + b.drop_last());
        assert((a + b).last() == b.last());
        lemma_tally_concat(a, b.drop_last(), p);
    }
}

/// A report of at most one violation counts 1 exactly if the check failed and
/// the violation is of the kind counted.
pub proof fn lemma_tally_one_if(failed: bool, e: ValidationError, p: spec_fn(ValidationError) -> bool)
    ensures
        tally(one_if(failed, e), p) == unit(failed && p(e)),
{
    if failed {
        let s = one_if(failed, e);
        assert(s.len() == 1);
        assert(s.last() == e);
        assert(s.drop_last().len() == 0);
        assert(tally(s.drop_last(), p) == 0);
    }
}

/// Where each level reports one violation of the kind counted if `c` holds
/// there and none otherwise, the count over the first `n` levels is the
/// number of levels at which `c` holds.
pub proof fn lemma_tally_gather(
    n: int,
    at: spec_fn(int) -> Seq<ValidationError>,
    p: spec_fn(ValidationError) -> bool,
    c: spec_fn(int) -> bool,
)
    requires
        forall|i: int| 0 <= i < n ==> tally(#[trigger] at(i), p) == unit(c(i)),
    ensures
        tally(gather(n, at), p) == hits(n, c),
    decreases n,
{
    if n > 0 {
        lemma_tally_gather(n - 1, at, p, c);
        lemma_tally_concat(gather(n - 1, at), at(n - 1), p);
    }
}

/// A level at which `c` holds is counted.
pub proof fn lemma_hits_at_least(n: int, c: spec_fn(int) -> bool, i: int)
    requires
        0 <= i < n,
        c(i),
    ensures
        hits(n, c) >= 1,
    decreases n,
{
    if i < n - 1 {
        lemma_hits_at_least(n - 1, c, i);
    }
}

/// Where no level reports anything, the whole report is empty.
pub proof fn lemma_gather_empty(n: int, at: spec_fn(int) -> Seq<ValidationError>)
    requires
        forall|i: int| 0 <= i < n ==> (#[trigger] at(i)).len() == 0,
    ensures
        gather(n, at) == Seq::<ValidationError>::empty(),
    decreases n,
{
    if n > 0 {
        lemma_gather_empty(n - 1, at);
        assert(gather(n - 1, at) + at(n - 1) =~= Seq::<ValidationError>::empty());
    }
}

/// Whether every violation in `s` satisfies `q`.
pub open spec fn all(s: Seq<ValidationError>, q: spec_fn(ValidationError) -> bool) -> bool {
    forall|j: int| 0 <= j < s.len() ==> q(#[trigger] s[j])
}

/// What holds of every violation in two reports holds in their join.
pub proof fn lemma_all_concat(
    a: Seq<ValidationError>,
    b: Seq<ValidationError>,
    q: spec_fn(ValidationError) -> bool,
)
    requires
        all(a, q),
        all(b, q),
    ensures
        all(a + b, q),
{
    assert forall|j: int| 0 <= j < (a + b).len() implies q(#[trigger] (a + b)[j]) by {
        if j < a.len() {
            assert((a + b)[j] == a[j]);
        } else {
            assert((a + b)[j] == b[j - a.len()]);
        }
    }
}

/// What holds of every violation of every level holds in the whole report.
pub proof fn lemma_all_gather(
    n: int,
    at: spec_fn(int) -> Seq<ValidationError>,
    q: spec_fn(ValidationError) -> bool,
)
    requires
        forall|i: int| 0 <= i < n ==> all(#[trigger] at(i), q),
    ensures
        all(gather(n, at), q),
    decreases n,
{
    if n > 0 {
        lemma_all_gather(n - 1, at, q);
        lemma_all_concat(gather(n - 1, at), at(n - 1), q);
    }
}

/// A report whose violations all satisfy `q` holds none of a kind that
/// excludes `q`.
pub proof fn lemma_tally_disjoint(
    s: Seq<ValidationError>,
    q: spec_fn(ValidationError) -> bool,
    p: spec_fn(ValidationError) -> bool,
)
    requires
        all(s, q),
        forall|e: ValidationError| #[trigger] q(e) ==> !p(e),
    ensures
        tally(s, p) == 0,
    decreases s.len(),
{
    if s.len() > 0 {
        assert(q(s[s.len() - 1]));
        assert forall|j: int| 0 <= j < s.drop_last().len() implies q(
            #[trigger] s.drop_last()[j],
        ) by {
            assert(s.drop_last()[j] == s[j]);
        }
        lemma_tally_disjoint(s.drop_last(), q, p);
    }
}

} // verus!
