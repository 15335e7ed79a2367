use vstd::prelude::*;

verus! {

/// The slice of `s` that starts at `start` and holds at most `limit` items;
/// empty when `start` lies at or beyond the end.
pub open spec fn page<T>(s: Seq<T>, start: int, limit: int) -> Seq<T> {
    if start >= s.len() {
        Seq::empty()
    } else {
        s.subrange(start, if start + limit < s.len() { start + limit } else { s.len() as int })
    }
}

/// Appending an item to a sequence appends it to a page exactly when its
/// position falls inside the page.
pub proof fn lemma_page_push<T>(s: Seq<T>, x: T, start: int, limit: int)
    requires
        0 <= start,
        0 <= limit,
    ensures
        page(s.push(x), start, limit) == (if start <= s.len() < start + limit {
            page(s, start, limit).push(x)
        } else {
            page(s, start, limit)
        }),
{
    if start <= s.len() < start + limit {
        assert(page(s.push(x), start, limit) =~= page(s, start, limit).push(x));
    } else {
        assert(page(s.push(x), start, limit) =~= page(s, start, limit));
    }
}

/// Pushing onto a sequence prepends to its reverse.
pub proof fn lemma_reverse_push<T>(s: Seq<T>, x: T)
    ensures
        s.push(x).reverse() == seq![x] + s.reverse(),
{
    assert(s.push(x).reverse() =~= seq![x] + s.reverse());
}

/// The prefix of length `i + 1` is the prefix of length `i` with item `i` pushed.
pub proof fn lemma_take_succ<T>(s: Seq<T>, i: int)
    requires
        0 <= i < s.len(),
    ensures
        s.take(i + 1) == s.take(i).push(s[i]),
{
    assert(s.take(i + 1) =~= s.take(i).push(s[i]));
}

/// Walking pages of a fixed positive size from the start recovers the
/// sequence: the page at `start` followed by everything after it is the
/// suffix from `start`.
pub proof fn lemma_page_then_rest<T>(s: Seq<T>, start: int, limit: int)
    requires
        0 <= start <= s.len(),
        0 < limit,
    ensures
        page(s, start, limit) + s.subrange(
            if start + limit < s.len() { start + limit } else { s.len() as int },
            s.len() as int,
        ) == s.subrange(start, s.len() as int),
{
    assert(page(s, start, limit) + s.subrange(
        if start + limit < s.len() { start + limit } else { s.len() as int },
        s.len() as int,
    ) =~= s.subrange(start, s.len() as int));
}

} // verus!
