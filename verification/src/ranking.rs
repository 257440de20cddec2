//! Ordering and selecting stat records by their kill count and their type.
//!
//! The per-vehicle and per-weapon records share these operations: a stable
//! ranking by kills (most kills first), a selection by type, and keeping the
//! first few entries.
use vstd::prelude::*;

verus! {

/// A stat record that has a kill count and a type.
pub trait Ranked: Sized {
    /// The kill count of the record.
    spec fn kill_count(&self) -> u32;

    /// The type of the record (such as "Tank" or "Lmg").
    spec fn category(&self) -> Seq<char>;

    fn kills(&self) -> (k: u32)
        ensures
            k == self.kill_count(),
    ;

    fn is_of_type(&self, wanted: &String) -> (b: bool)
        ensures
            b == (self.category() == wanted@),
    ;

    fn duplicate(&self) -> (r: Self)
        ensures
            r == *self,
    ;
}

/// The records of `s` whose kill count is `k`, in the order of `s`.
pub open spec fn with_kills<T: Ranked>(s: Seq<T>, k: u32) -> Seq<T> {
    s.filter(kills_equal::<T>(k))
}

/// Holds of the records whose kill count is `k`.
pub open spec fn kills_equal<T: Ranked>(k: u32) -> spec_fn(T) -> bool {
    |x: T| x.kill_count() == k
}

/// The records of `s` whose type is `t`, in the order of `s`.
pub open spec fn of_type<T: Ranked>(s: Seq<T>, t: Seq<char>) -> Seq<T> {
    s.filter(type_equal::<T>(t))
}

/// Holds of the records whose type is `t`.
pub open spec fn type_equal<T: Ranked>(t: Seq<char>) -> spec_fn(T) -> bool {
    |x: T| x.category() == t
}

/// No record of `s` has more kills than a record before it.
pub open spec fn kills_descending<T: Ranked>(s: Seq<T>) -> bool {
    forall|i: int, j: int| 0 <= i < j < s.len() ==> s[i].kill_count() >= s[j].kill_count()
}

/// `ranked` is `original` ordered by kills, most first, where records with
/// equal kills keep the order they had in `original` (a stable sort).
pub open spec fn is_kill_ranking<T: Ranked>(ranked: Seq<T>, original: Seq<T>) -> bool {
    &&& ranked.len() == original.len()
    &&& kills_descending(ranked)
    &&& forall|k: u32| #[trigger] with_kills(ranked, k) == with_kills(original, k)
}

/// The first `n` records of `s`, or all of them where `s` has fewer.
pub open spec fn first_n<T>(s: Seq<T>, n: nat) -> Seq<T> {
    if s.len() <= n {
        s
    } else {
        s.take(n as int)
    }
}

proof fn lemma_filter_none<T>(s: Seq<T>, pred: spec_fn(T) -> bool)
    requires
        forall|i: int| 0 <= i < s.len() ==> !pred(#[trigger] s[i]),
    ensures
        s.filter(pred) == Seq::<T>::empty(),
    decreases s.len(),
{
    reveal(Seq::filter);
    if s.len() > 0 {
        lemma_filter_none(s.drop_last(), pred);
    }
}

proof fn lemma_filter_single<T>(x: T, pred: spec_fn(T) -> bool)
    ensures
        seq![x].filter(pred) == (if pred(x) {
            seq![x]
        } else {
            Seq::<T>::empty()
        }),
{
    reveal_with_fuel(Seq::filter, 2);
    assert(seq![x].drop_last() =~= Seq::<T>::empty());
}

proof fn lemma_filter_push<T>(s: Seq<T>, x: T, pred: spec_fn(T) -> bool)
    ensures
        s.push(x).filter(pred) == (if pred(x) {
            s.filter(pred).push(x)
        } else {
            s.filter(pred)
        }),
{
    reveal(Seq::filter);
    assert(s.push(x).drop_last() =~= s);
}

/// Inserting `x` at `p`, behind every record with more kills and in front of
/// every other, keeps a descending sequence descending.
proof fn lemma_insert_descending<T: Ranked>(sorted: Seq<T>, p: int, x: T)
    requires
        0 <= p <= sorted.len(),
        kills_descending(sorted),
        forall|i: int| 0 <= i < p ==> #[trigger] sorted[i].kill_count() > x.kill_count(),
        p < sorted.len() ==> sorted[p].kill_count() <= x.kill_count(),
    ensures
        kills_descending(sorted.insert(p, x)),
{
    let inserted = sorted.insert(p, x);
    assert forall|i: int, j: int| 0 <= i < j < inserted.len() implies inserted[i].kill_count()
        >= inserted[j].kill_count() by {
        if j < p {
            assert(inserted[i] == sorted[i] && inserted[j] == sorted[j]);
        } else if j == p {
            assert(inserted[i] == sorted[i]);
        } else if i < p {
            assert(inserted[i] == sorted[i] && inserted[j] == sorted[j - 1]);
        } else if i == p {
            assert(inserted[j] == sorted[j - 1]);
            assert(sorted[p].kill_count() >= sorted[j - 1].kill_count());
        } else {
            assert(inserted[i] == sorted[i - 1] && inserted[j] == sorted[j - 1]);
        }
    }
}

/// Inserting `x` at `p`, behind every record with more kills, puts `x` first
/// among the records with its kill count and leaves the others as they were.
proof fn lemma_insert_with_kills<T: Ranked>(sorted: Seq<T>, p: int, x: T, k: u32)
    requires
        0 <= p <= sorted.len(),
        forall|i: int| 0 <= i < p ==> #[trigger] sorted[i].kill_count() > x.kill_count(),
    ensures
        with_kills(sorted.insert(p, x), k) == (if k == x.kill_count() {
            seq![x] + with_kills(sorted, k)
        } else {
            with_kills(sorted, k)
        }),
{
    let pred = kills_equal::<T>(k);
    let front = sorted.take(p);
    let back = sorted.skip(p);
    assert(sorted.insert(p, x) =~= front + (seq![x] + back));
    assert(sorted =~= front + back);
    Seq::filter_distributes_over_add(front, seq![x] + back, pred);
    Seq::filter_distributes_over_add(seq![x], back, pred);
    Seq::filter_distributes_over_add(front, back, pred);
    lemma_filter_single(x, pred);
    if k == x.kill_count() {
        assert forall|i: int| 0 <= i < front.len() implies !pred(#[trigger] front[i]) by {
            assert(front[i] == sorted[i]);
        }
        lemma_filter_none(front, pred);
        assert(front.filter(pred) + back.filter(pred) =~= back.filter(pred));
        assert(front.filter(pred) + (seq![x] + back.filter(pred)) =~= seq![x] + back.filter(
            pred,
        ));
    } else {
        assert(seq![x].filter(pred) + back.filter(pred) =~= back.filter(pred));
    }
}

proof fn lemma_filter_front<T>(s: Seq<T>, pred: spec_fn(T) -> bool)
    requires
        s.len() > 0,
    ensures
        s.filter(pred) == (if pred(s[0]) {
            seq![s[0]] + s.drop_first().filter(pred)
        } else {
            s.drop_first().filter(pred)
        }),
{
    assert(s =~= seq![s[0]] + s.drop_first());
    Seq::filter_distributes_over_add(seq![s[0]], s.drop_first(), pred);
    lemma_filter_single(s[0], pred);
    if !pred(s[0]) {
        assert(Seq::<T>::empty() + s.drop_first().filter(pred) =~= s.drop_first().filter(pred));
    }
}

/// A record with kill count `k` lies in `s` where the records of `s` with
/// kill count `k` are not none.
proof fn lemma_with_kills_witness<T: Ranked>(s: Seq<T>, k: u32) -> (i: int)
    requires
        with_kills(s, k).len() > 0,
    ensures
        0 <= i < s.len(),
        s[i].kill_count() == k,
{
    if forall|j: int| 0 <= j < s.len() ==> !(kills_equal::<T>(k))(#[trigger] s[j]) {
        lemma_filter_none(s, kills_equal::<T>(k));
        assert(false);
        0
    } else {
        choose|j: int| 0 <= j < s.len() && (kills_equal::<T>(k))(#[trigger] s[j])
    }
}

/// Two sequences ordered by kills, most first, that have the same records
/// with each kill count in the same order, are the same sequence.
proof fn lemma_rankings_agree<T: Ranked>(a: Seq<T>, b: Seq<T>)
    requires
        kills_descending(a),
        kills_descending(b),
        forall|k: u32| #[trigger] with_kills(a, k) == with_kills(b, k),
    ensures
        a == b,
    decreases a.len() + b.len(),
{
    if a.len() == 0 && b.len() == 0 {
        assert(a =~= b);
    } else if a.len() == 0 {
        let kb = b[0].kill_count();
        lemma_filter_front(b, kills_equal::<T>(kb));
        assert(with_kills(a, kb) == with_kills(b, kb));
        lemma_filter_none(a, kills_equal::<T>(kb));
    } else if b.len() == 0 {
        let ka = a[0].kill_count();
        lemma_filter_front(a, kills_equal::<T>(ka));
        assert(with_kills(a, ka) == with_kills(b, ka));
        lemma_filter_none(b, kills_equal::<T>(ka));
    } else {
        let ka = a[0].kill_count();
        let kb = b[0].kill_count();
        lemma_filter_front(a, kills_equal::<T>(ka));
        lemma_filter_front(b, kills_equal::<T>(kb));
        assert(with_kills(a, ka) == with_kills(b, ka));
        assert(with_kills(a, kb) == with_kills(b, kb));
        let i = lemma_with_kills_witness(b, ka);
        let j = lemma_with_kills_witness(a, kb);
        assert(kb >= b[i].kill_count());
        assert(ka >= a[j].kill_count());
        assert(ka == kb);
        assert(with_kills(a, ka)[0] == a[0]);
        assert(with_kills(b, ka)[0] == b[0]);
        let a1 = a.drop_first();
        let b1 = b.drop_first();
        assert forall|k: u32| #[trigger] with_kills(a1, k) == with_kills(b1, k) by {
            lemma_filter_front(a, kills_equal::<T>(k));
            lemma_filter_front(b, kills_equal::<T>(k));
            assert(with_kills(a, k) == with_kills(b, k));
            if k == ka {
                assert(with_kills(a1, k) =~= with_kills(a, k).drop_first());
                assert(with_kills(b1, k) =~= with_kills(b, k).drop_first());
            }
        }
        assert forall|x: int, y: int| 0 <= x < y < a1.len() implies a1[x].kill_count()
            >= a1[y].kill_count() by {
            assert(a1[x] == a[x + 1] && a1[y] == a[y + 1]);
        }
        assert forall|x: int, y: int| 0 <= x < y < b1.len() implies b1[x].kill_count()
            >= b1[y].kill_count() by {
            assert(b1[x] == b[x + 1] && b1[y] == b[y + 1]);
        }
        lemma_rankings_agree(a1, b1);
        assert(a =~= seq![a[0]] + a1);
        assert(b =~= seq![b[0]] + b1);
    }
}

/// A sequence has one ranking by kills: ordering by kills, with records of
/// equal kills kept in their order, gives a single result.
pub proof fn lemma_kill_ranking_unique<T: Ranked>(first: Seq<T>, second: Seq<T>, original: Seq<T>)
    requires
        is_kill_ranking(first, original),
        is_kill_ranking(second, original),
    ensures
        first == second,
{
    assert forall|k: u32| #[trigger] with_kills(first, k) == with_kills(second, k) by {
        assert(with_kills(first, k) == with_kills(original, k));
        assert(with_kills(second, k) == with_kills(original, k));
    }
    lemma_rankings_agree(first, second);
}

/// Ranking a sequence that is already ordered by kills leaves it as it is;
/// so ranking twice gives what ranking once gives.
pub proof fn lemma_ranking_ranked_is_identity<T: Ranked>(ranked: Seq<T>, original: Seq<T>)
    requires
        kills_descending(original),
        is_kill_ranking(ranked, original),
    ensures
        ranked == original,
{
    lemma_rankings_agree(ranked, original);
}

proof fn lemma_count_in_filter<T>(s: Seq<T>, pred: spec_fn(T) -> bool, x: T)
    requires
        pred(x),
    ensures
        s.filter(pred).to_multiset().count(x) == s.to_multiset().count(x),
    decreases s.len(),
{
    broadcast use vstd::seq_lib::group_to_multiset_ensures;

    reveal(Seq::filter);
    if s.len() > 0 {
        lemma_count_in_filter(s.drop_last(), pred, x);
        assert(s =~= s.drop_last().push(s.last()));
    }
}

/// A ranking by kills holds the same records as the original, each as often.
pub proof fn lemma_ranking_permutes<T: Ranked>(ranked: Seq<T>, original: Seq<T>)
    requires
        is_kill_ranking(ranked, original),
    ensures
        ranked.to_multiset() == original.to_multiset(),
{
    assert forall|x: T| #[trigger] ranked.to_multiset().count(x) == original.to_multiset().count(
        x,
    ) by {
        let k = x.kill_count();
        lemma_count_in_filter(ranked, kills_equal::<T>(k), x);
        lemma_count_in_filter(original, kills_equal::<T>(k), x);
        assert(with_kills(ranked, k) == with_kills(original, k));
    }
    assert(ranked.to_multiset() =~= original.to_multiset());
}

/// What the first `n` records of a ranking keep: no dropped record has more
/// kills than a kept one.
pub proof fn lemma_top_records_have_most_kills<T: Ranked>(ranked: Seq<T>, n: nat)
    requires
        kills_descending(ranked),
    ensures
        forall|i: int, j: int|
            0 <= i < first_n(ranked, n).len() && first_n(ranked, n).len() <= j < ranked.len()
                ==> #[trigger] first_n(ranked, n)[i].kill_count() >= #[trigger] ranked[j].kill_count(),
{
}

/// Selecting by type keeps exactly the records of that type: every selected
/// record has the type, and every record of the type is selected.
pub proof fn lemma_selection_is_exact<T: Ranked>(s: Seq<T>, t: Seq<char>)
    ensures
        forall|i: int| 0 <= i < of_type(s, t).len() ==> #[trigger] of_type(s, t)[i].category() == t,
        forall|i: int| 0 <= i < s.len() && s[i].category() == t ==> of_type(s, t).contains(
            #[trigger] s[i],
        ),
        of_type(s, t).len() <= s.len(),
{
    broadcast use vstd::seq_lib::group_filter_ensures;

    assert forall|i: int| 0 <= i < of_type(s, t).len() implies #[trigger] of_type(s, t)[i].category()
        == t by {
        assert((type_equal::<T>(t))(s.filter(type_equal::<T>(t))[i]));
    }
    assert forall|i: int| 0 <= i < s.len() && s[i].category() == t implies of_type(s, t).contains(
        #[trigger] s[i],
    ) by {
        assert((type_equal::<T>(t))(s[i]));
    }
}

proof fn lemma_filter_commutes<T>(s: Seq<T>, p: spec_fn(T) -> bool, q: spec_fn(T) -> bool)
    ensures
        s.filter(p).filter(q) == s.filter(q).filter(p),
    decreases s.len(),
{
    if s.len() > 0 {
        let front = s.drop_last();
        let x = s.last();
        assert(s =~= front.push(x));
        lemma_filter_commutes(front, p, q);
        lemma_filter_push(front, x, p);
        lemma_filter_push(front, x, q);
        lemma_filter_push(front.filter(p), x, q);
        lemma_filter_push(front.filter(q), x, p);
    } else {
        reveal(Seq::filter);
    }
}

proof fn lemma_filter_twice<T>(s: Seq<T>, p: spec_fn(T) -> bool)
    ensures
        s.filter(p).filter(p) == s.filter(p),
    decreases s.len(),
{
    if s.len() > 0 {
        let front = s.drop_last();
        let x = s.last();
        assert(s =~= front.push(x));
        lemma_filter_twice(front, p);
        lemma_filter_push(front, x, p);
        lemma_filter_push(front.filter(p), x, p);
    } else {
        reveal(Seq::filter);
    }
}

proof fn lemma_filter_kills_at_least<T: Ranked>(s: Seq<T>, p: spec_fn(T) -> bool, bound: u32)
    requires
        forall|i: int| 0 <= i < s.len() ==> #[trigger] s[i].kill_count() >= bound,
    ensures
        forall|i: int|
            0 <= i < s.filter(p).len() ==> #[trigger] s.filter(p)[i].kill_count() >= bound,
    decreases s.len(),
{
    if s.len() > 0 {
        let front = s.drop_last();
        let x = s.last();
        assert(s =~= front.push(x));
        assert forall|i: int| 0 <= i < front.len() implies #[trigger] front[i].kill_count()
            >= bound by {
            assert(front[i] == s[i]);
        }
        lemma_filter_kills_at_least(front, p, bound);
        lemma_filter_push(front, x, p);
    } else {
        reveal(Seq::filter);
    }
}

proof fn lemma_filter_descending<T: Ranked>(s: Seq<T>, p: spec_fn(T) -> bool)
    requires
        kills_descending(s),
    ensures
        kills_descending(s.filter(p)),
    decreases s.len(),
{
    if s.len() > 0 {
        let front = s.drop_last();
        let x = s.last();
        assert(s =~= front.push(x));
        assert forall|i: int, j: int| 0 <= i < j < front.len() implies front[i].kill_count()
            >= front[j].kill_count() by {
            assert(front[i] == s[i] && front[j] == s[j]);
        }
        lemma_filter_descending(front, p);
        lemma_filter_push(front, x, p);
        if p(x) {
            assert forall|i: int| 0 <= i < front.len() implies #[trigger] front[i].kill_count()
                >= x.kill_count() by {
                assert(front[i] == s[i]);
            }
            lemma_filter_kills_at_least(front, p, x.kill_count());
            let f = front.filter(p);
            assert forall|i: int, j: int| 0 <= i < j < f.push(x).len() implies f.push(x)[i].kill_count()
                >= f.push(x)[j].kill_count() by {
                assert(f.push(x)[i] == f[i]);
                if j < f.len() {
                    assert(f.push(x)[j] == f[j]);
                }
            }
        }
    } else {
        reveal(Seq::filter);
    }
}

proof fn lemma_count_outside_filter<T>(s: Seq<T>, pred: spec_fn(T) -> bool, x: T)
    requires
        !pred(x),
    ensures
        s.filter(pred).to_multiset().count(x) == 0,
    decreases s.len(),
{
    broadcast use vstd::seq_lib::group_to_multiset_ensures;

    reveal(Seq::filter);
    if s.len() > 0 {
        lemma_count_outside_filter(s.drop_last(), pred, x);
    } else {
        assert(s.filter(pred).to_multiset() =~= vstd::multiset::Multiset::<T>::empty());
    }
}

/// Selecting by type commutes with ranking by kills: the records of a type
/// in a ranking are the ranking of the records of that type. So ranking and
/// then selecting gives what selecting and then ranking gives.
pub proof fn lemma_selection_commutes_with_ranking<T: Ranked>(
    ranked: Seq<T>,
    original: Seq<T>,
    t: Seq<char>,
)
    requires
        is_kill_ranking(ranked, original),
    ensures
        is_kill_ranking(of_type(ranked, t), of_type(original, t)),
        forall|selected_ranked: Seq<T>|
            #[trigger] is_kill_ranking(selected_ranked, of_type(original, t)) ==> selected_ranked
                == of_type(ranked, t),
{
    broadcast use vstd::seq_lib::group_to_multiset_ensures;

    let p = type_equal::<T>(t);
    lemma_filter_descending(ranked, p);
    assert forall|k: u32| #[trigger] with_kills(of_type(ranked, t), k) == with_kills(
        of_type(original, t),
        k,
    ) by {
        let q = kills_equal::<T>(k);
        lemma_filter_commutes(ranked, p, q);
        lemma_filter_commutes(original, p, q);
        assert(with_kills(ranked, k) == with_kills(original, k));
        assert(ranked.filter(q).filter(p) == original.filter(q).filter(p));
    }
    lemma_ranking_permutes(ranked, original);
    assert forall|x: T| #[trigger] of_type(ranked, t).to_multiset().count(x) == of_type(
        original,
        t,
    ).to_multiset().count(x) by {
        if p(x) {
            lemma_count_in_filter(ranked, p, x);
            lemma_count_in_filter(original, p, x);
        } else {
            lemma_count_outside_filter(ranked, p, x);
            lemma_count_outside_filter(original, p, x);
        }
    }
    assert(of_type(ranked, t).to_multiset() =~= of_type(original, t).to_multiset());
    assert(of_type(ranked, t).len() == of_type(original, t).len()) by {
        assert(of_type(ranked, t).to_multiset().len() == of_type(ranked, t).len());
        assert(of_type(original, t).to_multiset().len() == of_type(original, t).len());
    }
    assert(kills_descending(of_type(ranked, t)));
    assert(is_kill_ranking(of_type(ranked, t), of_type(original, t)));
    assert forall|selected_ranked: Seq<T>|
        #[trigger] is_kill_ranking(selected_ranked, of_type(original, t)) implies selected_ranked
        == of_type(ranked, t) by {
        lemma_kill_ranking_unique(selected_ranked, of_type(ranked, t), of_type(original, t));
    }
}

/// Selecting by a type twice gives what selecting once gives.
pub proof fn lemma_selection_twice_is_once<T: Ranked>(s: Seq<T>, t: Seq<char>)
    ensures
        of_type(of_type(s, t), t) == of_type(s, t),
{
    lemma_filter_twice(s, type_equal::<T>(t));
}

/// Orders `v` by kills, most first; records with equal kills keep their
/// relative order.
pub fn sort_by_kills<T: Ranked>(v: &mut Vec<T>)
    ensures
        is_kill_ranking(final(v)@, old(v)@),
{
    let ghost original = v@;
    let mut sorted: Vec<T> = Vec::new();
    while v.len() > 0
        invariant
            v@ == original.take(v@.len() as int),
            v@.len() <= original.len(),
            sorted@.len() + v@.len() == original.len(),
            kills_descending(sorted@),
            forall|k: u32|
                #[trigger] with_kills(sorted@, k) == with_kills(
                    original.skip(v@.len() as int),
                    k,
                ),
        decreases v@.len(),
    {
        let ghost before = v@;
        let x = v.pop().unwrap();
        let kx = x.kills();
        let mut p: usize = 0;
        while p < sorted.len() && sorted[p].kills() > kx
            invariant
                p <= sorted@.len(),
                forall|i: int| 0 <= i < p ==> #[trigger] sorted@[i].kill_count() > kx,
            decreases sorted@.len() - p,
        {
            p = p + 1;
        }
        let ghost old_sorted = sorted@;
        proof {
            let n = v@.len() as int;
            assert(original.skip(n) =~= seq![x] + original.skip(n + 1)) by {
                assert(before == original.take(n + 1));
                assert(x == original[n]);
            }
            assert forall|k: u32| #[trigger]
                with_kills(old_sorted.insert(p as int, x), k) == with_kills(original.skip(n), k) by {
                lemma_insert_with_kills(old_sorted, p as int, x, k);
                let pred = kills_equal::<T>(k);
                Seq::filter_distributes_over_add(seq![x], original.skip(n + 1), pred);
                lemma_filter_single(x, pred);
                if k != kx {
                    assert(seq![x].filter(pred) + original.skip(n + 1).filter(pred)
                        =~= original.skip(n + 1).filter(pred));
                }
            }
            lemma_insert_descending(old_sorted, p as int, x);
            assert(v@ =~= original.take(n));
        }
        sorted.insert(p, x);
    }
    proof {
        assert(original.skip(0) =~= original);
    }
    *v = sorted;
}

/// The records of `v` whose type is `wanted`, in their order in `v`.
pub fn select_type<T: Ranked>(v: &Vec<T>, wanted: &str) -> (r: Vec<T>)
    ensures
        r@ == of_type(v@, wanted@),
{
    let wanted: String = wanted.to_owned();
    let mut r: Vec<T> = Vec::new();
    let mut i: usize = 0;
    while i < v.len()
        invariant
            i <= v@.len(),
            r@ == of_type(v@.take(i as int), wanted@),
        decreases v@.len() - i,
    {
        proof {
            assert(v@.take(i + 1) =~= v@.take(i as int).push(v@[i as int]));
            lemma_filter_push(v@.take(i as int), v@[i as int], type_equal::<T>(wanted@));
        }
        if v[i].is_of_type(&wanted) {
            r.push(v[i].duplicate());
        }
        i = i + 1;
    }
    proof {
        assert(v@.take(v@.len() as int) =~= v@);
    }
    r
}

/// Keeps the first `n` records of `v`.
pub fn keep_first<T>(v: &mut Vec<T>, n: usize)
    ensures
        final(v)@ == first_n(old(v)@, n as nat),
{
    v.truncate(n);
}

} // verus!
