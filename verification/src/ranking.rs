use vstd::prelude::*;
use crate::catalog::ScoredAsset;

verus! {

/// `sorted` with `x` placed after every asset that scores at least as high as `x`
/// and before the trailing assets that score lower.
pub open spec fn insert_by_score(sorted: Seq<ScoredAsset>, x: ScoredAsset) -> Seq<ScoredAsset>
    decreases sorted.len(),
{
    if sorted.len() == 0 || sorted.last().score_key >= x.score_key {
        sorted.push(x)
    } else {
        insert_by_score(sorted.drop_last(), x).push(sorted.last())
    }
}

/// The assets from the highest score to the lowest; assets with equal scores keep their order.
pub open spec fn sort_by_score(s: Seq<ScoredAsset>) -> Seq<ScoredAsset>
    decreases s.len(),
{
    if s.len() == 0 {
        s
    } else {
        insert_by_score(sort_by_score(s.drop_last()), s.last())
    }
}

/// The `limit` best-scored assets, best first (all of them when there are fewer).
pub open spec fn top_by_score(s: Seq<ScoredAsset>, limit: nat) -> Seq<ScoredAsset> {
    let sorted = sort_by_score(s);
    if sorted.len() > limit {
        sorted.take(limit as int)
    } else {
        sorted
    }
}

/// The assets of `s` whose score key is `key`, in order.
pub open spec fn with_score(s: Seq<ScoredAsset>, key: u64) -> Seq<ScoredAsset>
    decreases s.len(),
{
    if s.len() == 0 {
        s
    } else if s.last().score_key == key {
        with_score(s.drop_last(), key).push(s.last())
    } else {
        with_score(s.drop_last(), key)
    }
}

/// Scores never increase along `s`.
pub open spec fn is_descending(s: Seq<ScoredAsset>) -> bool {
    forall|i: int, j: int| 0 <= i < j < s.len() ==> s[i].score_key >= s[j].score_key
}

/// Orders the assets from the highest score to the lowest, keeping the order of equally
/// scored assets, and keeps the first `max_results` of them.
pub fn select_top(ranked: Vec<ScoredAsset>, max_results: usize) -> (top: Vec<ScoredAsset>)
    ensures
        top@ == top_by_score(ranked@, max_results as nat),
{
    let ghost all = ranked@;
    let mut sorted: Vec<ScoredAsset> = Vec::new();
    for x in it: ranked.into_iter()
        invariant
            it.seq() == all,
            sorted@ == sort_by_score(all.take(it.index() as int)),
    {
        let ghost k = it.index() as int;
        proof {
            assert(all.take(k + 1).drop_last() =~= all.take(k));
            assert(all.take(k + 1).last() == x);
        }
        let mut j: usize = sorted.len();
        proof {
            assert(sorted@.take(j as int) =~= sorted@);
            assert(insert_by_score(sorted@, x) =~= insert_by_score(sorted@.take(j as int), x)
                + sorted@.skip(j as int));
        }
        while j > 0 && sorted[j - 1].score_key < x.score_key
            invariant
                j <= sorted@.len(),
                insert_by_score(sorted@, x) == insert_by_score(sorted@.take(j as int), x)
                    + sorted@.skip(j as int),
            decreases j,
        {
            proof {
                let s = sorted@;
                let t = s.take(j as int);
                assert(t.drop_last() =~= s.take(j - 1));
                assert(t.last() == s[j - 1]);
                assert(insert_by_score(t, x) == insert_by_score(s.take(j - 1), x).push(s[j - 1]));
                assert(insert_by_score(s.take(j - 1), x).push(s[j - 1]) + s.skip(j as int)
                    =~= insert_by_score(s.take(j - 1), x) + s.skip(j - 1));
            }
            j = j - 1;
        }
        proof {
            let s = sorted@;
            assert(insert_by_score(s.take(j as int), x) == s.take(j as int).push(x));
            assert(s.take(j as int).push(x) + s.skip(j as int) =~= s.insert(j as int, x));
        }
        sorted.insert(j, x);
    }
    proof {
        assert(all.take(all.len() as int) =~= all);
    }
    sorted.truncate(max_results);
    sorted
}

proof fn lemma_insert_len(s: Seq<ScoredAsset>, x: ScoredAsset)
    ensures
        insert_by_score(s, x).len() == s.len() + 1,
    decreases s.len(),
{
    if s.len() > 0 && s.last().score_key < x.score_key {
        lemma_insert_len(s.drop_last(), x);
    }
}

proof fn lemma_insert_keeps_descending(s: Seq<ScoredAsset>, x: ScoredAsset)
    requires
        is_descending(s),
    ensures
        is_descending(insert_by_score(s, x)),
        insert_by_score(s, x).len() > 0,
        insert_by_score(s, x)[0].score_key == if s.len() > 0 && s[0].score_key >= x.score_key {
            s[0].score_key
        } else {
            x.score_key
        },
    decreases s.len(),
{
    lemma_insert_len(s, x);
    if s.len() == 0 || s.last().score_key >= x.score_key {
        let r = s.push(x);
        assert forall|i: int, j: int| 0 <= i < j < r.len() implies r[i].score_key >= r[j].score_key by {
            if j == s.len() {
                assert(s[i].score_key >= s.last().score_key);
            }
        }
    } else {
        let d = s.drop_last();
        assert(is_descending(d));
        lemma_insert_keeps_descending(d, x);
        let m = insert_by_score(d, x);
        lemma_insert_len(d, x);
        let r = m.push(s.last());
        assert forall|i: int, j: int| 0 <= i < j < r.len() implies r[i].score_key >= r[j].score_key by {
            if j == m.len() {
                // every element of m is either x or an element of d, all above s.last()
                lemma_insert_elements(d, x, i);
                if m[i] != x {
                    let k = choose|k: int| 0 <= k < d.len() && d[k] == m[i];
                    assert(s[k] == d[k]);
                    assert(s[k].score_key >= s[s.len() - 1].score_key);
                }
            }
        }
        if d.len() > 0 {
            assert(s[0] == d[0]);
        }
    }
}

proof fn lemma_insert_elements(s: Seq<ScoredAsset>, x: ScoredAsset, i: int)
    requires
        0 <= i < insert_by_score(s, x).len(),
    ensures
        insert_by_score(s, x)[i] == x || exists|k: int| 0 <= k < s.len() && s[k] == insert_by_score(s, x)[i],
    decreases s.len(),
{
    lemma_insert_len(s, x);
    if s.len() == 0 || s.last().score_key >= x.score_key {
        if i < s.len() {
            assert(s[i] == insert_by_score(s, x)[i]);
        }
    } else {
        let d = s.drop_last();
        lemma_insert_len(d, x);
        if i < d.len() + 1 {
            lemma_insert_elements(d, x, i);
            if insert_by_score(s, x)[i] != x {
                let k = choose|k: int| 0 <= k < d.len() && d[k] == insert_by_score(d, x)[i];
                assert(s[k] == d[k]);
            }
        } else {
            assert(s[s.len() - 1] == insert_by_score(s, x)[i]);
        }
    }
}

proof fn lemma_insert_multiset(s: Seq<ScoredAsset>, x: ScoredAsset)
    ensures
        insert_by_score(s, x).to_multiset() == s.to_multiset().insert(x),
    decreases s.len(),
{
    broadcast use vstd::seq_lib::to_multiset_build;

    if s.len() == 0 || s.last().score_key >= x.score_key {
    } else {
        let d = s.drop_last();
        lemma_insert_multiset(d, x);
        assert(s =~= d.push(s.last()));
        assert(insert_by_score(d, x).push(s.last()).to_multiset() =~= d.to_multiset().insert(x).insert(
            s.last(),
        ));
        assert(s.to_multiset() =~= d.to_multiset().insert(s.last()));
    }
}

proof fn lemma_insert_with_score(s: Seq<ScoredAsset>, x: ScoredAsset, key: u64)
    ensures
        with_score(insert_by_score(s, x), key) == if x.score_key == key {
            with_score(s, key).push(x)
        } else {
            with_score(s, key)
        },
    decreases s.len(),
{
    if s.len() == 0 || s.last().score_key >= x.score_key {
        assert(s.push(x).drop_last() =~= s);
    } else {
        let d = s.drop_last();
        lemma_insert_with_score(d, x, key);
        let m = insert_by_score(d, x);
        assert(m.push(s.last()).drop_last() =~= m);
    }
}

// Laws of the ranking.

/// The ranking lists scores from the highest to the lowest.
pub proof fn law_ranking_is_descending(s: Seq<ScoredAsset>)
    ensures
        is_descending(sort_by_score(s)),
    decreases s.len(),
{
    if s.len() > 0 {
        law_ranking_is_descending(s.drop_last());
        lemma_insert_keeps_descending(sort_by_score(s.drop_last()), s.last());
    }
}

/// The ranking holds exactly the assets it was given, each as often as it was given.
pub proof fn law_ranking_keeps_every_asset(s: Seq<ScoredAsset>)
    ensures
        sort_by_score(s).to_multiset() == s.to_multiset(),
        sort_by_score(s).len() == s.len(),
    decreases s.len(),
{
    broadcast use vstd::seq_lib::to_multiset_build;

    if s.len() > 0 {
        law_ranking_keeps_every_asset(s.drop_last());
        lemma_insert_multiset(sort_by_score(s.drop_last()), s.last());
        lemma_insert_len(sort_by_score(s.drop_last()), s.last());
        assert(s =~= s.drop_last().push(s.last()));
    }
}

/// The ranking is stable: assets with equal scores stay in the order they came in.
pub proof fn law_ranking_is_stable(s: Seq<ScoredAsset>, key: u64)
    ensures
        with_score(sort_by_score(s), key) == with_score(s, key),
    decreases s.len(),
{
    if s.len() > 0 {
        law_ranking_is_stable(s.drop_last(), key);
        lemma_insert_with_score(sort_by_score(s.drop_last()), s.last(), key);
    }
}

/// The report keeps `min(limit, n)` assets, and every asset it keeps scores at least as high as
/// every asset it leaves out.
pub proof fn law_top_outranks_the_rest(s: Seq<ScoredAsset>, limit: nat)
    ensures
        top_by_score(s, limit).len() == if s.len() > limit { limit } else { s.len() },
        top_by_score(s, limit) == sort_by_score(s).take(top_by_score(s, limit).len() as int),
        forall|i: int, j: int|
            #![trigger top_by_score(s, limit)[i], sort_by_score(s)[j]]
            0 <= i < top_by_score(s, limit).len() <= j < s.len() ==> top_by_score(s, limit)[i].score_key
                >= sort_by_score(s)[j].score_key,
{
    law_ranking_keeps_every_asset(s);
    law_ranking_is_descending(s);
    let sorted = sort_by_score(s);
    if sorted.len() <= limit {
        assert(sorted.take(sorted.len() as int) =~= sorted);
    }
    let top = top_by_score(s, limit);
    assert forall|i: int, j: int|
        #![trigger top[i], sorted[j]]
        0 <= i < top.len() <= j < s.len() implies top[i].score_key >= sorted[j].score_key by {
        assert(top[i] == sorted[i]);
    }
}

} // verus!
