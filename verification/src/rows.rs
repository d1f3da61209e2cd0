//! Ordered tables of rows: the sequence operations the store is stated in, and verified
//! implementations of them over `Vec`.

use vstd::prelude::*;

verus! {

/// A stored record: it has a mathematical view and can be copied without changing it.
pub trait Record: View + Sized {
    /// A copy with the same view.
    fn duplicate(&self) -> (copy: Self)
        ensures
            copy@ == self@,
    ;
}

impl Record for String {
    fn duplicate(&self) -> (copy: Self) {
        self.clone()
    }
}

/// The views of the rows of a table.
pub open spec fn views<T: View>(s: Seq<T>) -> Seq<T::V> {
    Seq::new(s.len(), |i: int| s[i]@)
}

/// The view of an optional row.
pub open spec fn opt<T: View>(o: Option<T>) -> Option<T::V> {
    match o {
        Some(t) => Some(t@),
        None => None,
    }
}

/// A copy of an optional row.
pub(crate) fn duplicate_opt<T: Record>(o: &Option<T>) -> (copy: Option<T>)
    ensures
        opt(copy) == opt(*o),
{
    match o {
        Some(t) => Some(t.duplicate()),
        None => None,
    }
}

/// Copies of all rows.
pub(crate) fn duplicate_rows<T: Record>(rows: &Vec<T>) -> (out: Vec<T>)
    ensures
        views(out@) == views(rows@),
{
    let mut out: Vec<T> = Vec::new();
    let mut i: usize = 0;
    while i < rows.len()
        invariant
            0 <= i <= rows@.len(),
            out@.len() == i,
            forall|j: int| 0 <= j < i ==> (#[trigger] out@[j])@ == rows@[j]@,
        decreases rows@.len() - i,
    {
        out.push(rows[i].duplicate());
        i = i + 1;
    }
    assert(views(out@) =~= views(rows@));
    out
}

// ---------------------------------------------------------------------------
// Sequence vocabulary.
// ---------------------------------------------------------------------------

/// Whether some row satisfies `p`.
pub open spec fn some_row<A>(s: Seq<A>, p: spec_fn(A) -> bool) -> bool {
    exists|i: int| 0 <= i < s.len() && p(#[trigger] s[i])
}

/// The index of the first row that satisfies `p`.
pub open spec fn first_index<A>(s: Seq<A>, p: spec_fn(A) -> bool) -> Option<int>
    decreases s.len(),
{
    if s.len() == 0 {
        None
    } else {
        match first_index(s.drop_last(), p) {
            Some(i) => Some(i),
            None => if p(s.last()) {
                Some(s.len() - 1)
            } else {
                None
            },
        }
    }
}

/// The first row that satisfies `p`.
pub open spec fn first_row<A>(s: Seq<A>, p: spec_fn(A) -> bool) -> Option<A> {
    match first_index(s, p) {
        Some(i) => Some(s[i]),
        None => None,
    }
}

/// The last row that satisfies `p`.
pub open spec fn last_row<A>(s: Seq<A>, p: spec_fn(A) -> bool) -> Option<A>
    decreases s.len(),
{
    if s.len() == 0 {
        None
    } else if p(s.last()) {
        Some(s.last())
    } else {
        last_row(s.drop_last(), p)
    }
}

/// The images under `g` of the rows that have one, in order.
pub open spec fn collected<A, B>(s: Seq<A>, g: spec_fn(A) -> Option<B>) -> Seq<B>
    decreases s.len(),
{
    if s.len() == 0 {
        Seq::empty()
    } else {
        match g(s.last()) {
            Some(b) => collected(s.drop_last(), g).push(b),
            None => collected(s.drop_last(), g),
        }
    }
}

/// How many rows satisfy `p`.
pub open spec fn count_rows<A>(s: Seq<A>, p: spec_fn(A) -> bool) -> nat {
    s.filter(p).len()
}

/// The table with the first row that satisfies `p` replaced by its image under `f`.
pub open spec fn update_first<A>(s: Seq<A>, p: spec_fn(A) -> bool, f: spec_fn(A) -> A) -> Seq<A> {
    match first_index(s, p) {
        Some(i) => s.update(i, f(s[i])),
        None => s,
    }
}

/// At most `limit` rows from the front; none when `limit` is not positive.
pub open spec fn limited<A>(s: Seq<A>, limit: int) -> Seq<A> {
    if limit <= 0 {
        Seq::empty()
    } else if limit < s.len() {
        s.take(limit)
    } else {
        s
    }
}

/// A count as a signed number.
pub open spec fn as_count(n: nat) -> i64 {
    if n <= i64::MAX {
        n as i64
    } else {
        i64::MAX
    }
}

/// `x` placed behind the longest prefix of rows that all may stand before it.
pub open spec fn insert_sorted<A>(s: Seq<A>, x: A, le: spec_fn(A, A) -> bool) -> Seq<A>
    decreases s.len(),
{
    if s.len() == 0 {
        seq![x]
    } else if le(s.last(), x) {
        s.push(x)
    } else {
        insert_sorted(s.drop_last(), x, le).push(s.last())
    }
}

/// The rows of `s` sorted by `le`; rows that `le` holds equal keep their order.
pub open spec fn sorted<A>(s: Seq<A>, le: spec_fn(A, A) -> bool) -> Seq<A>
    decreases s.len(),
{
    if s.len() == 0 {
        s
    } else {
        insert_sorted(sorted(s.drop_last(), le), s.last(), le)
    }
}

/// The rows of `s` that do not occur earlier in it.
pub open spec fn deduped<A>(s: Seq<A>) -> Seq<A>
    decreases s.len(),
{
    if s.len() == 0 {
        s
    } else {
        let rest = deduped(s.drop_last());
        if rest.contains(s.last()) {
            rest
        } else {
            rest.push(s.last())
        }
    }
}

// ---------------------------------------------------------------------------
// Facts about the vocabulary.
// ---------------------------------------------------------------------------

/// `first_index` finds the least index, and finds one whenever there is one.
pub proof fn lemma_first_index<A>(s: Seq<A>, p: spec_fn(A) -> bool)
    ensures
        match first_index(s, p) {
            Some(i) => 0 <= i < s.len() && p(s[i]) && forall|j: int| 0 <= j < i ==> !p(#[trigger] s[j]),
            None => forall|j: int| 0 <= j < s.len() ==> !p(#[trigger] s[j]),
        },
        first_index(s, p) is Some <==> some_row(s, p),
    decreases s.len(),
{
    if s.len() > 0 {
        let d = s.drop_last();
        lemma_first_index(d, p);
        assert forall|j: int| 0 <= j < d.len() implies d[j] == s[j] by {}
        if first_index(d, p) is Some {
            assert(p(s[first_index(d, p)->0]));
        }
    }
}

/// An index that is the least to satisfy `p` is the one `first_index` finds.
pub proof fn lemma_first_index_unique<A>(s: Seq<A>, p: spec_fn(A) -> bool, i: int)
    requires
        0 <= i < s.len(),
        p(s[i]),
        forall|j: int| 0 <= j < i ==> !p(#[trigger] s[j]),
    ensures
        first_index(s, p) == Some(i),
{
    lemma_first_index(s, p);
}

pub proof fn lemma_views_filter_step<T: View>(s: Seq<T>, p: spec_fn(T::V) -> bool, i: int)
    requires
        0 <= i < s.len(),
    ensures
        views(s).take(i + 1).filter(p) == if p(s[i]@) {
            views(s).take(i).filter(p).push(s[i]@)
        } else {
            views(s).take(i).filter(p)
        },
{
    assert(views(s).take(i + 1) =~= views(s).take(i).push(s[i]@));
    lemma_filter_push(views(s).take(i), s[i]@, p);
}

/// Filtering distributes over appending one row.
pub proof fn lemma_filter_push<A>(s: Seq<A>, x: A, p: spec_fn(A) -> bool)
    ensures
        s.push(x).filter(p) == if p(x) {
            s.filter(p).push(x)
        } else {
            s.filter(p)
        },
{
    reveal(Seq::filter);
    assert(s.push(x).drop_last() =~= s);
}

/// Membership after filtering.
pub proof fn lemma_filter_contains<A>(s: Seq<A>, p: spec_fn(A) -> bool)
    ensures
        forall|x: A| #[trigger] s.filter(p).contains(x) <==> s.contains(x) && p(x),
    decreases s.len(),
{
    reveal(Seq::filter);
    if s.len() > 0 {
        let d = s.drop_last();
        lemma_filter_contains(d, p);
        assert(s =~= d.push(s.last()));
        lemma_filter_push(d, s.last(), p);
        assert forall|x: A| #[trigger] s.filter(p).contains(x) <==> s.contains(x) && p(x) by {
            lemma_push_contains(d, s.last(), x);
            lemma_push_contains(d.filter(p), s.last(), x);
            assert(d.filter(p).contains(x) <==> d.contains(x) && p(x));
        }
    } else {
        assert(s.filter(p) =~= s);
    }
}

/// Membership after appending one row.
pub proof fn lemma_push_contains<A>(s: Seq<A>, y: A, x: A)
    ensures
        s.push(y).contains(x) <==> s.contains(x) || x == y,
{
    if s.contains(x) {
        let i = choose|i: int| 0 <= i < s.len() && s[i] == x;
        assert(s.push(y)[i] == x);
    }
    if x == y {
        assert(s.push(y)[s.len() as int] == x);
    }
    if s.push(y).contains(x) {
        let i = choose|i: int| 0 <= i < s.push(y).len() && s.push(y)[i] == x;
        if i < s.len() {
            assert(s[i] == x);
        }
    }
}

/// `deduped` keeps exactly the members, each once.
pub proof fn lemma_deduped<A>(s: Seq<A>)
    ensures
        forall|x: A| #[trigger] deduped(s).contains(x) <==> s.contains(x),
        deduped(s).no_duplicates(),
        deduped(s).len() <= s.len(),
    decreases s.len(),
{
    if s.len() > 0 {
        let d = s.drop_last();
        lemma_deduped(d);
        assert(s =~= d.push(s.last()));
        assert forall|x: A| #[trigger] deduped(s).contains(x) <==> s.contains(x) by {
            lemma_push_contains(d, s.last(), x);
            lemma_push_contains(deduped(d), s.last(), x);
            assert(deduped(d).contains(x) <==> d.contains(x));
        }
    }
}

// ---------------------------------------------------------------------------
// Operations on tables.
// ---------------------------------------------------------------------------

/// A length as a signed number.
pub(crate) fn to_count(n: usize) -> (r: i64)
    ensures
        r == as_count(n as nat),
{
    if n as u64 <= i64::MAX as u64 {
        n as i64
    } else {
        i64::MAX
    }
}

/// Whether some row satisfies the test.
pub(crate) fn any_row<T: View, F: Fn(&T) -> bool>(
    rows: &Vec<T>,
    test: F,
    Ghost(p): Ghost<spec_fn(T::V) -> bool>,
) -> (r: bool)
    requires
        forall|t: &T| #[trigger] call_requires(test, (t,)),
        forall|t: &T, b: bool| #[trigger] call_ensures(test, (t,), b) ==> b == p(t@),
    ensures
        r == some_row(views(rows@), p),
{
    match find_row(rows, test, Ghost(p)) {
        Some(_) => true,
        None => false,
    }
}

/// The index of the first row that satisfies the test.
pub(crate) fn find_row<T: View, F: Fn(&T) -> bool>(
    rows: &Vec<T>,
    test: F,
    Ghost(p): Ghost<spec_fn(T::V) -> bool>,
) -> (r: Option<usize>)
    requires
        forall|t: &T| #[trigger] call_requires(test, (t,)),
        forall|t: &T, b: bool| #[trigger] call_ensures(test, (t,), b) ==> b == p(t@),
    ensures
        match r {
            Some(i) => i < rows@.len() && p(rows@[i as int]@) && first_index(views(rows@), p) == Some(
                i as int,
            ) && first_row(views(rows@), p) == Some(rows@[i as int]@) && some_row(views(rows@), p),
            None => first_index(views(rows@), p) is None && first_row(views(rows@), p) is None
                && !some_row(views(rows@), p),
        },
{
    let ghost s = views(rows@);
    let mut i: usize = 0;
    while i < rows.len()
        invariant
            0 <= i <= rows@.len(),
            s == views(rows@),
            forall|t: &T| #[trigger] call_requires(test, (t,)),
            forall|t: &T, b: bool| #[trigger] call_ensures(test, (t,), b) ==> b == p(t@),
            forall|j: int| 0 <= j < i ==> !p(#[trigger] s[j]),
        decreases rows@.len() - i,
    {
        if test(&rows[i]) {
            proof {
                assert(p(s[i as int]));
                lemma_first_index_unique(s, p, i as int);
                lemma_first_index(s, p);
            }
            return Some(i);
        }
        assert(!p(s[i as int]));
        i = i + 1;
    }
    proof {
        lemma_first_index(s, p);
    }
    None
}

/// A copy of the first row that satisfies the test.
pub(crate) fn get_row<T: Record, F: Fn(&T) -> bool>(
    rows: &Vec<T>,
    test: F,
    Ghost(p): Ghost<spec_fn(T::V) -> bool>,
) -> (r: Option<T>)
    requires
        forall|t: &T| #[trigger] call_requires(test, (t,)),
        forall|t: &T, b: bool| #[trigger] call_ensures(test, (t,), b) ==> b == p(t@),
    ensures
        match r {
            Some(t) => first_row(views(rows@), p) == Some(t@),
            None => first_row(views(rows@), p) is None,
        },
{
    match find_row(rows, test, Ghost(p)) {
        Some(i) => Some(rows[i].duplicate()),
        None => None,
    }
}

/// How many rows satisfy the test.
pub(crate) fn count<T: View, F: Fn(&T) -> bool>(
    rows: &Vec<T>,
    test: F,
    Ghost(p): Ghost<spec_fn(T::V) -> bool>,
) -> (r: usize)
    requires
        forall|t: &T| #[trigger] call_requires(test, (t,)),
        forall|t: &T, b: bool| #[trigger] call_ensures(test, (t,), b) ==> b == p(t@),
    ensures
        r == count_rows(views(rows@), p),
{
    let ghost s = views(rows@);
    let mut i: usize = 0;
    let mut n: usize = 0;
    assert(s.take(0).filter(p).len() == 0) by {
        reveal(Seq::filter);
    }
    while i < rows.len()
        invariant
            0 <= i <= rows@.len(),
            n <= i,
            s == views(rows@),
            forall|t: &T| #[trigger] call_requires(test, (t,)),
            forall|t: &T, b: bool| #[trigger] call_ensures(test, (t,), b) ==> b == p(t@),
            n == s.take(i as int).filter(p).len(),
        decreases rows@.len() - i,
    {
        proof {
            lemma_views_filter_step(rows@, p, i as int);
        }
        if test(&rows[i]) {
            n = n + 1;
        }
        i = i + 1;
    }
    assert(s.take(i as int) =~= s);
    n
}

/// Copies of the rows that satisfy the test, in order.
pub(crate) fn select<T: Record, F: Fn(&T) -> bool>(
    rows: &Vec<T>,
    test: F,
    Ghost(p): Ghost<spec_fn(T::V) -> bool>,
) -> (out: Vec<T>)
    requires
        forall|t: &T| #[trigger] call_requires(test, (t,)),
        forall|t: &T, b: bool| #[trigger] call_ensures(test, (t,), b) ==> b == p(t@),
    ensures
        views(out@) == views(rows@).filter(p),
{
    let ghost s = views(rows@);
    let mut i: usize = 0;
    let mut out: Vec<T> = Vec::new();
    assert(s.take(0).filter(p) =~= views(out@)) by {
        reveal(Seq::filter);
    }
    while i < rows.len()
        invariant
            0 <= i <= rows@.len(),
            s == views(rows@),
            forall|t: &T| #[trigger] call_requires(test, (t,)),
            forall|t: &T, b: bool| #[trigger] call_ensures(test, (t,), b) ==> b == p(t@),
            views(out@) == s.take(i as int).filter(p),
        decreases rows@.len() - i,
    {
        proof {
            lemma_views_filter_step(rows@, p, i as int);
        }
        if test(&rows[i]) {
            let ghost before = out@;
            out.push(rows[i].duplicate());
            assert(views(out@) =~= views(before).push(rows@[i as int]@));
        }
        i = i + 1;
    }
    assert(s.take(i as int) =~= s);
    out
}

/// A copy of the last row that satisfies the test.
pub(crate) fn get_last_row<T: Record, F: Fn(&T) -> bool>(
    rows: &Vec<T>,
    test: F,
    Ghost(p): Ghost<spec_fn(T::V) -> bool>,
) -> (r: Option<T>)
    requires
        forall|t: &T| #[trigger] call_requires(test, (t,)),
        forall|t: &T, b: bool| #[trigger] call_ensures(test, (t,), b) ==> b == p(t@),
    ensures
        opt(r) == last_row(views(rows@), p),
{
    let ghost s = views(rows@);
    let mut i: usize = rows.len();
    assert(s.take(i as int) =~= s);
    while i > 0
        invariant
            0 <= i <= rows@.len(),
            s == views(rows@),
            forall|t: &T| #[trigger] call_requires(test, (t,)),
            forall|t: &T, b: bool| #[trigger] call_ensures(test, (t,), b) ==> b == p(t@),
            last_row(s, p) == last_row(s.take(i as int), p),
        decreases i,
    {
        assert(s.take(i as int).drop_last() =~= s.take(i - 1));
        assert(s.take(i as int).last() == rows@[i - 1]@);
        if test(&rows[i - 1]) {
            return Some(rows[i - 1].duplicate());
        }
        i = i - 1;
    }
    None
}

/// The images of all rows, in order.
pub(crate) fn map_rows<T: View, U: View, F: Fn(&T) -> U>(
    rows: &Vec<T>,
    f: F,
    Ghost(g): Ghost<spec_fn(T::V) -> U::V>,
) -> (out: Vec<U>)
    requires
        forall|t: &T| #[trigger] call_requires(f, (t,)),
        forall|t: &T, u: U| #[trigger] call_ensures(f, (t,), u) ==> u@ == g(t@),
    ensures
        views(out@) == views(rows@).map_values(g),
{
    let mut out: Vec<U> = Vec::new();
    let mut i: usize = 0;
    while i < rows.len()
        invariant
            0 <= i <= rows@.len(),
            out@.len() == i,
            forall|t: &T| #[trigger] call_requires(f, (t,)),
            forall|t: &T, u: U| #[trigger] call_ensures(f, (t,), u) ==> u@ == g(t@),
            forall|j: int| 0 <= j < i ==> (#[trigger] out@[j])@ == g(rows@[j]@),
        decreases rows@.len() - i,
    {
        let u = f(&rows[i]);
        out.push(u);
        i = i + 1;
    }
    assert(views(out@) =~= views(rows@).map_values(g));
    out
}

/// The images of the rows that have one, in order.
pub(crate) fn collect_rows<T: View, U: View, F: Fn(&T) -> Option<U>>(
    rows: &Vec<T>,
    f: F,
    Ghost(g): Ghost<spec_fn(T::V) -> Option<U::V>>,
) -> (out: Vec<U>)
    requires
        forall|t: &T| #[trigger] call_requires(f, (t,)),
        forall|t: &T, u: Option<U>| #[trigger] call_ensures(f, (t,), u) ==> opt(u) == g(t@),
    ensures
        views(out@) == collected(views(rows@), g),
{
    let ghost s = views(rows@);
    let mut out: Vec<U> = Vec::new();
    let mut i: usize = 0;
    assert(views(out@) =~= collected(s.take(0), g));
    while i < rows.len()
        invariant
            0 <= i <= rows@.len(),
            s == views(rows@),
            forall|t: &T| #[trigger] call_requires(f, (t,)),
            forall|t: &T, u: Option<U>| #[trigger] call_ensures(f, (t,), u) ==> opt(u) == g(t@),
            views(out@) == collected(s.take(i as int), g),
        decreases rows@.len() - i,
    {
        assert(s.take(i + 1).drop_last() =~= s.take(i as int));
        assert(s.take(i + 1).last() == rows@[i as int]@);
        if let Some(u) = f(&rows[i]) {
            let ghost before = out@;
            out.push(u);
            assert(views(out@) =~= views(before).push(u@));
        }
        i = i + 1;
    }
    assert(s.take(s.len() as int) =~= s);
    out
}

/// Remove the rows that fail the test.
pub(crate) fn retain<T: View, F: Fn(&T) -> bool>(
    rows: &mut Vec<T>,
    test: F,
    Ghost(p): Ghost<spec_fn(T::V) -> bool>,
)
    requires
        forall|t: &T| #[trigger] call_requires(test, (t,)),
        forall|t: &T, b: bool| #[trigger] call_ensures(test, (t,), b) ==> b == p(t@),
    ensures
        views(final(rows)@) == views(old(rows)@).filter(p),
{
    let ghost orig = rows@;
    let ghost s = views(orig);
    let ghost mut seen: int = 0;
    let mut i: usize = 0;
    assert(s.take(0).filter(p) =~= views(rows@).take(0)) by {
        reveal(Seq::filter);
    }
    while i < rows.len()
        invariant
            0 <= i <= rows@.len(),
            0 <= seen <= orig.len(),
            s == views(orig),
            rows@.len() - i == orig.len() - seen,
            forall|j: int| i <= j < rows@.len() ==> #[trigger] rows@[j] == orig[j - i + seen],
            forall|t: &T| #[trigger] call_requires(test, (t,)),
            forall|t: &T, b: bool| #[trigger] call_ensures(test, (t,), b) ==> b == p(t@),
            views(rows@).take(i as int) == s.take(seen).filter(p),
        decreases rows@.len() - i,
    {
        proof {
            lemma_views_filter_step(orig, p, seen);
        }
        let ghost before = rows@;
        assert(before[i as int] == orig[seen]);
        if test(&rows[i]) {
            assert(views(rows@).take(i + 1) =~= views(rows@).take(i as int).push(before[i as int]@));
            i = i + 1;
        } else {
            let _ = rows.remove(i);
            assert(views(rows@).take(i as int) =~= views(before).take(i as int));
            assert forall|j: int| i <= j < rows@.len() implies #[trigger] rows@[j] == orig[j - i
                + seen + 1] by {
                assert(rows@[j] == before[j + 1]);
            }
        }
        proof {
            seen = seen + 1;
        }
    }
    assert(s.take(seen) =~= s);
    assert(views(rows@).take(i as int) =~= views(rows@));
}

/// Keep at most `limit` rows.
pub(crate) fn limit_rows<T: View>(rows: &mut Vec<T>, limit: i64)
    ensures
        views(final(rows)@) == limited(views(old(rows)@), limit as int),
{
    if limit <= 0 {
        rows.clear();
        assert(views(rows@) =~= Seq::empty());
    } else if (limit as u64) < (rows.len() as u64) {
        let ghost before = rows@;
        rows.truncate(limit as usize);
        assert(views(rows@) =~= views(before).take(limit as int));
    }
}

/// Move the rows of `more` behind those of `list`.
pub(crate) fn append_rows<T: View>(list: &mut Vec<T>, more: Vec<T>)
    ensures
        views(final(list)@) == views(old(list)@) + views(more@),
{
    let ghost before = list@;
    let mut tail = more;
    list.append(&mut tail);
    assert(views(list@) =~= views(before) + views(more@));
}

/// Insert a row behind the rows that may stand before it.
pub(crate) fn insert_row<T: View, F: Fn(&T, &T) -> bool>(
    rows: &mut Vec<T>,
    x: T,
    le: &F,
    Ghost(p): Ghost<spec_fn(T::V, T::V) -> bool>,
)
    requires
        forall|a: &T, b: &T| #[trigger] call_requires(*le, (a, b)),
        forall|a: &T, b: &T, r: bool| #[trigger] call_ensures(*le, (a, b), r) ==> r == p(a@, b@),
    ensures
        views(final(rows)@) == insert_sorted(views(old(rows)@), x@, p),
{
    let ghost orig = rows@;
    let ghost s = views(orig);
    let n: usize = rows.len();
    let mut i: usize = n;
    assert(s.take(n as int) =~= s);
    assert(s.skip(n as int) =~= Seq::empty());
    assert(insert_sorted(s, x@, p) =~= insert_sorted(s.take(n as int), x@, p) + s.skip(n as int));
    while i > 0 && !le(&rows[i - 1], &x)
        invariant
            0 <= i <= n == rows@.len(),
            rows@ == orig,
            s == views(orig),
            forall|a: &T, b: &T| #[trigger] call_requires(*le, (a, b)),
            forall|a: &T, b: &T, r: bool| #[trigger] call_ensures(*le, (a, b), r) ==> r == p(a@, b@),
            insert_sorted(s, x@, p) == insert_sorted(s.take(i as int), x@, p) + s.skip(i as int),
        ensures
            0 <= i <= n,
            insert_sorted(s, x@, p) == s.take(i as int).push(x@) + s.skip(i as int),
        decreases i,
    {
        assert(s.take(i as int).drop_last() =~= s.take(i - 1));
        assert(insert_sorted(s.take(i - 1), x@, p).push(s[i - 1]) + s.skip(i as int)
            =~= insert_sorted(s.take(i - 1), x@, p) + s.skip(i - 1));
        i = i - 1;
    }
    rows.insert(i, x);
    assert(views(rows@) =~= s.take(i as int).push(x@) + s.skip(i as int));
}

/// The rows sorted by `le`, keeping the order of rows that it holds equal.
pub(crate) fn sort_rows<T: View, F: Fn(&T, &T) -> bool>(
    rows: Vec<T>,
    le: F,
    Ghost(p): Ghost<spec_fn(T::V, T::V) -> bool>,
) -> (out: Vec<T>)
    requires
        forall|a: &T, b: &T| #[trigger] call_requires(le, (a, b)),
        forall|a: &T, b: &T, r: bool| #[trigger] call_ensures(le, (a, b), r) ==> r == p(a@, b@),
    ensures
        views(out@) == sorted(views(rows@), p),
{
    let ghost s = views(rows@);
    let mut out: Vec<T> = Vec::new();
    assert(views(out@) =~= sorted(s.take(0), p));
    for row in it: rows
        invariant
            it.seq() == rows@,
            s == views(rows@),
            forall|a: &T, b: &T| #[trigger] call_requires(le, (a, b)),
            forall|a: &T, b: &T, r: bool| #[trigger] call_ensures(le, (a, b), r) ==> r == p(a@, b@),
            views(out@) == sorted(s.take(it.index()), p),
    {
        let ghost i = it.index();
        assert(s.take(i + 1).drop_last() =~= s.take(i));
        insert_row(&mut out, row, &le, Ghost(p));
    }
    assert(s.take(s.len() as int) =~= s);
    out
}

} // verus!
