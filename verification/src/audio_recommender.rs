//! Multi-dimensional track ranking.
//!
//! Three independent context dimensions (time of day, season, weather) each
//! contribute a list of candidate tracks. The lists are concatenated in that
//! fixed order and every distinct track is ranked by how often it appears in
//! the concatenation, most appearances first; tracks tied on appearances
//! keep the order in which they were first encountered.

use vstd::prelude::*;
use vstd::slice::slice_index_get;
use vstd::std_specs::cmp::PartialEqSpec;

use crate::database::TrackHeader;

verus! {

/// How many elements of `s` the probe `x` is related to by `==` (as
/// specified by `eq_spec`, with `x` on the left as the callers compare).
pub open spec fn eq_count<T: PartialEq>(s: Seq<T>, x: T) -> nat
    decreases s.len(),
{
    if s.len() == 0 {
        0
    } else {
        eq_count(s.drop_last(), x) + (if x.eq_spec(&s.last()) {
            1nat
        } else {
            0nat
        })
    }
}

/// Position `i` holds the most frequent element of `s`, and is the first
/// position whose element reaches that frequency.
pub open spec fn is_first_most_frequent_at<T: PartialEq>(s: Seq<T>, i: int) -> bool {
    &&& 0 <= i < s.len()
    &&& forall|j: int| 0 <= j < s.len() ==> eq_count(s, s[j]) <= eq_count(s, s[i])
    &&& forall|j: int| 0 <= j < i ==> eq_count(s, s[j]) < eq_count(s, s[i])
}

/// The ids of a track list, in order.
pub open spec fn track_ids(s: Seq<TrackHeader>) -> Seq<i64> {
    s.map_values(|t: TrackHeader| t.id)
}

/// How often id `x` occurs in `s`.
pub open spec fn count_of(s: Seq<i64>, x: i64) -> nat
    decreases s.len(),
{
    if s.len() == 0 {
        0
    } else {
        count_of(s.drop_last(), x) + (if s.last() == x {
            1nat
        } else {
            0nat
        })
    }
}

/// Position `p` is the first occurrence of its id in `s`.
pub open spec fn is_first_occurrence(s: Seq<i64>, p: int) -> bool {
    &&& 0 <= p < s.len()
    &&& forall|q: int| 0 <= q < p ==> s[q] != s[p]
}

/// The position of the first occurrence of id `x` in `s` (one past the end
/// when `x` does not occur).
pub open spec fn first_index_of(s: Seq<i64>, x: i64) -> int
    decreases s.len(),
{
    if s.len() == 0 {
        0
    } else if s.first() == x {
        0
    } else {
        1 + first_index_of(s.drop_first(), x)
    }
}

/// Id `x` outranks id `y` against the concatenated dimension results `s`:
/// it occurs more often, or equally often but earlier.
pub open spec fn ranked_before(s: Seq<i64>, x: i64, y: i64) -> bool {
    ||| count_of(s, x) > count_of(s, y)
    ||| (count_of(s, x) == count_of(s, y) && first_index_of(s, x) < first_index_of(s, y))
}

/// An id occurs at least once exactly when the sequence contains it.
pub proof fn lemma_count_pos(s: Seq<i64>, x: i64)
    ensures
        count_of(s, x) > 0 <==> s.contains(x),
    decreases s.len(),
{
    if s.len() == 0 {
    } else {
        lemma_count_pos(s.drop_last(), x);
        if s.last() == x {
            assert(s[s.len() - 1] == x);
        }
        if s.contains(x) {
            let i = choose|i: int| 0 <= i < s.len() && s[i] == x;
            if i < s.len() - 1 {
                assert(s.drop_last()[i] == x);
                assert(s.drop_last().contains(x));
            }
        }
        if s.drop_last().contains(x) {
            let i = choose|i: int| 0 <= i < s.drop_last().len() && s.drop_last()[i] == x;
            assert(s[i] == x);
        }
    }
}

/// `first_index_of` names the position a first occurrence sits at.
pub proof fn lemma_first_index_at(s: Seq<i64>, p: int)
    requires
        is_first_occurrence(s, p),
    ensures
        first_index_of(s, s[p]) == p,
    decreases p,
{
    if p == 0 {
    } else {
        let s2 = s.drop_first();
        assert(s[0] != s[p]);
        assert(is_first_occurrence(s2, p - 1)) by {
            assert(s2[p - 1] == s[p]);
            assert(forall|q: int| 0 <= q < p - 1 ==> s2[q] == s[q + 1] && s[q + 1] != s[p]);
        }
        lemma_first_index_at(s2, p - 1);
        assert(s2[p - 1] == s[p]);
    }
}

/// For an id that occurs, `first_index_of` lands on a first occurrence of
/// that id.
pub proof fn lemma_first_index_props(s: Seq<i64>, x: i64)
    requires
        s.contains(x),
    ensures
        is_first_occurrence(s, first_index_of(s, x)),
        s[first_index_of(s, x)] == x,
    decreases s.len(),
{
    if s.first() == x {
    } else {
        let s2 = s.drop_first();
        let i = choose|i: int| 0 <= i < s.len() && s[i] == x;
        assert(s2[i - 1] == x);
        assert(s2.contains(x));
        lemma_first_index_props(s2, x);
        let p2 = first_index_of(s2, x);
        assert(s[p2 + 1] == s2[p2]);
        assert(forall|q: int| 1 <= q < p2 + 1 ==> s[q] == s2[q - 1] && s2[q - 1] != x);
    }
}

/// `r` is a ranking of the ids of `s`: it holds exactly the distinct ids of
/// `s`, each once, in strict `ranked_before` order.
pub open spec fn ranked_sequence_of(s: Seq<i64>, r: Seq<TrackHeader>) -> bool {
    &&& forall|k: int| 0 <= k < r.len() ==> s.contains(#[trigger] r[k].id)
    &&& forall|x: i64| s.contains(x) ==> exists|k: int| 0 <= k < r.len() && #[trigger] r[k].id == x
    &&& forall|k1: int, k2: int| 0 <= k1 < k2 < r.len() ==> r[k1].id != r[k2].id
    &&& forall|k1: int, k2: int| 0 <= k1 < k2 < r.len() ==> ranked_before(s, r[k1].id, r[k2].id)
}

proof fn lemma_rankings_agree_up_to(s: Seq<i64>, r1: Seq<TrackHeader>, r2: Seq<TrackHeader>, k: int)
    requires
        ranked_sequence_of(s, r1),
        ranked_sequence_of(s, r2),
        0 <= k <= r1.len(),
        k <= r2.len(),
    ensures
        forall|j: int| 0 <= j < k ==> r1[j].id == r2[j].id,
    decreases k,
{
    if k > 0 {
        lemma_rankings_agree_up_to(s, r1, r2, k - 1);
        let x = r1[k - 1].id;
        let y = r2[k - 1].id;
        if x != y {
            assert(s.contains(x));
            assert(s.contains(y));
            let k2 = choose|k2: int| 0 <= k2 < r2.len() && #[trigger] r2[k2].id == x;
            let k1 = choose|k1: int| 0 <= k1 < r1.len() && #[trigger] r1[k1].id == y;
            if k2 < k - 1 {
                assert(r1[k2].id == r2[k2].id);
                assert(r1[k2].id != r1[k - 1].id);
                assert(false);
            }
            if k1 < k - 1 {
                assert(r1[k1].id == r2[k1].id);
                assert(r2[k1].id != r2[k - 1].id);
                assert(false);
            }
            assert(k2 > k - 1 && k1 > k - 1);
            assert(ranked_before(s, y, x));
            assert(ranked_before(s, x, y));
            assert(false);
        }
    }
}

/// Ranking is deterministic: the ranking contract pins the output, so any
/// two sequences that rank the same concatenated dimension results agree,
/// position by position, on the track ids.
pub proof fn lemma_ranking_deterministic(s: Seq<i64>, r1: Seq<TrackHeader>, r2: Seq<TrackHeader>)
    requires
        ranked_sequence_of(s, r1),
        ranked_sequence_of(s, r2),
    ensures
        r1.len() == r2.len(),
        forall|k: int| 0 <= k < r1.len() ==> r1[k].id == r2[k].id,
{
    let m = if r1.len() <= r2.len() {
        r1.len() as int
    } else {
        r2.len() as int
    };
    lemma_rankings_agree_up_to(s, r1, r2, m);
    if r1.len() > r2.len() {
        let x = r1[m].id;
        assert(s.contains(x));
        let k2 = choose|k2: int| 0 <= k2 < r2.len() && #[trigger] r2[k2].id == x;
        assert(r1[k2].id == r2[k2].id);
        assert(false);
    }
    if r2.len() > r1.len() {
        let y = r2[m].id;
        assert(s.contains(y));
        let k1 = choose|k1: int| 0 <= k1 < r1.len() && #[trigger] r1[k1].id == y;
        assert(r1[k1].id == r2[k1].id);
        assert(false);
    }
}

/// Frequency dominance is strict ordering: a track appearing in more
/// dimension results than another ranks strictly before it in any ranking
/// of the same concatenation.
pub proof fn lemma_more_matches_ranks_before(
    s: Seq<i64>,
    r: Seq<TrackHeader>,
    ka: int,
    kb: int,
)
    requires
        ranked_sequence_of(s, r),
        0 <= ka < r.len(),
        0 <= kb < r.len(),
        count_of(s, r[ka].id) > count_of(s, r[kb].id),
    ensures
        ka < kb,
{
    if ka == kb {
        assert(false);
    }
    if kb < ka {
        assert(ranked_before(s, r[kb].id, r[ka].id));
        assert(false);
    }
}

/// A ranking entry: the position of a distinct track's first occurrence in
/// the concatenated dimension results, and how often its id occurs there.
#[derive(Clone, Copy)]
struct Entry {
    first: usize,
    cnt: usize,
}

/// The entry describes a first occurrence in `s` and carries its exact
/// frequency.
spec fn entry_valid(s: Seq<i64>, e: Entry) -> bool {
    &&& is_first_occurrence(s, e.first as int)
    &&& e.cnt == count_of(s, s[e.first as int])
}

/// Appends the ids of `tracks` to `ids`.
fn push_ids(ids: &mut Vec<i64>, tracks: &Vec<TrackHeader>)
    ensures
        final(ids)@ == old(ids)@ + track_ids(tracks@),
{
    let n = tracks.len();
    let mut i: usize = 0;
    while i < n
        invariant
            n == tracks@.len(),
            i <= n,
            ids@ == old(ids)@ + track_ids(tracks@.take(i as int)),
        decreases n - i,
    {
        ids.push(tracks[i].id);
        proof {
            assert(track_ids(tracks@.take(i + 1)) =~= track_ids(tracks@.take(i as int)).push(
                tracks@[i as int].id,
            ));
            assert(ids@ =~= old(ids)@ + track_ids(tracks@.take(i + 1)));
        }
        i += 1;
    }
    proof {
        assert(tracks@.take(n as int) =~= tracks@);
    }
}

/// The track at position `i` of the three dimension results laid end to
/// end.
fn track_at<'a>(
    a: &'a Vec<TrackHeader>,
    b: &'a Vec<TrackHeader>,
    c: &'a Vec<TrackHeader>,
    i: usize,
) -> (t: &'a TrackHeader)
    requires
        a@.len() + b@.len() + c@.len() <= usize::MAX,
        i < a@.len() + b@.len() + c@.len(),
    ensures
        *t == (a@ + b@ + c@)[i as int],
{
    if i < a.len() {
        &a[i]
    } else if i < a.len() + b.len() {
        &b[i - a.len()]
    } else {
        &c[i - a.len() - b.len()]
    }
}

/// One entry per distinct id of `ids`: its first occurrence position and
/// its exact frequency, in first-occurrence order.
#[verifier::rlimit(100)]
#[verifier::spinoff_prover]
fn collect_entries(ids: &Vec<i64>) -> (entries: Vec<Entry>)
    ensures
        forall|k: int| 0 <= k < entries@.len() ==> entry_valid(ids@, #[trigger] entries@[k]),
        forall|k: int| 0 <= k < entries@.len() ==> 1 <= (#[trigger] entries@[k]).cnt <= ids@.len(),
        forall|k1: int, k2: int|
            0 <= k1 < k2 < entries@.len() ==> entries@[k1].first < entries@[k2].first,
        forall|p: int|
            0 <= p < ids@.len() && is_first_occurrence(ids@, p) ==> exists|k: int|
                0 <= k < entries@.len() && (#[trigger] entries@[k]).first == p,
{
    let n = ids.len();
    let mut entries: Vec<Entry> = Vec::new();
    let mut j: usize = 0;
    while j < n
        invariant
            n == ids@.len(),
            j <= n,
            forall|k: int|
                0 <= k < entries@.len() ==> entry_valid(ids@, #[trigger] entries@[k])
                    && entries@[k].first < j && 1 <= entries@[k].cnt <= n,
            forall|k1: int, k2: int|
                0 <= k1 < k2 < entries@.len() ==> entries@[k1].first < entries@[k2].first,
            forall|p: int|
                0 <= p < j && is_first_occurrence(ids@, p) ==> exists|k: int|
                    0 <= k < entries@.len() && (#[trigger] entries@[k]).first == p,
        decreases n - j,
    {
        let idj = ids[j];
        let mut dup = false;
        let mut q: usize = 0;
        while q < j
            invariant
                j < n,
                n == ids@.len(),
                q <= j,
                idj == ids@[j as int],
                dup <==> exists|t: int| 0 <= t < q && ids@[t] == ids@[j as int],
            decreases j - q,
        {
            if ids[q] == idj {
                dup = true;
            }
            q += 1;
        }
        if !dup {
            proof {
                assert(is_first_occurrence(ids@, j as int));
            }
            let mut cnt: usize = 0;
            let mut k: usize = 0;
            while k < n
                invariant
                    n == ids@.len(),
                    k <= n,
                    cnt <= k,
                    j < n,
                    idj == ids@[j as int],
                    cnt == count_of(ids@.take(k as int), idj),
                decreases n - k,
            {
                proof {
                    assert(ids@.take(k + 1).drop_last() =~= ids@.take(k as int));
                }
                if ids[k] == idj {
                    cnt += 1;
                }
                k += 1;
            }
            proof {
                assert(ids@.take(n as int) =~= ids@);
                assert(ids@[j as int] == idj);
                assert(ids@.contains(idj));
                lemma_count_pos(ids@, idj);
            }
            let ghost entries0 = entries@;
            entries.push(Entry { first: j, cnt });
            proof {
                assert forall|p: int|
                    0 <= p < j + 1 && is_first_occurrence(ids@, p) implies exists|k: int|
                        0 <= k < entries@.len() && (#[trigger] entries@[k]).first == p by {
                    if p < j {
                        let k0 = choose|k0: int|
                            0 <= k0 < entries0.len() && (#[trigger] entries0[k0]).first == p;
                        assert(entries@[k0].first == p);
                    } else {
                        assert(entries@[entries0.len() as int].first == p);
                    }
                }
            }
        } else {
            proof {
                let t = choose|t: int| 0 <= t < j && ids@[t] == ids@[j as int];
                assert(!is_first_occurrence(ids@, j as int));
            }
        }
        j += 1;
    }
    entries
}
/// Reorders the entries into emission order: descending frequency, with
/// ties in ascending first-occurrence order. Every entry comes out exactly
/// once; the two ghost maps witness it, giving for each output position its
/// source entry and for each entry its output position.
#[verifier::rlimit(100)]
#[verifier::spinoff_prover]
fn rank_entries(entries: &Vec<Entry>, n: usize) -> (res: (Vec<Entry>, Ghost<Seq<int>>, Ghost<
    Seq<int>,
>))
    requires
        forall|k: int| 0 <= k < entries@.len() ==> 1 <= (#[trigger] entries@[k]).cnt <= n,
        forall|k1: int, k2: int|
            0 <= k1 < k2 < entries@.len() ==> entries@[k1].first < entries@[k2].first,
    ensures
        ({
            let picked = res.0@;
            let src = res.1@;
            let pos = res.2@;
            &&& src.len() == picked.len()
            &&& forall|k: int|
                0 <= k < picked.len() ==> 0 <= #[trigger] src[k] < entries@.len()
                    && entries@[src[k]] == picked[k]
            &&& pos.len() == entries@.len()
            &&& forall|j: int|
                0 <= j < entries@.len() ==> 0 <= #[trigger] pos[j] < picked.len()
                    && picked[pos[j]] == entries@[j]
            &&& forall|k1: int, k2: int|
                0 <= k1 < k2 < picked.len() ==> picked[k1].cnt > picked[k2].cnt || (picked[k1].cnt
                    == picked[k2].cnt && picked[k1].first < picked[k2].first)
        }),
{
    let m = entries.len();
    let mut picked: Vec<Entry> = Vec::new();
    let ghost mut src: Seq<int> = Seq::empty();
    let ghost mut pos: Seq<int> = Seq::new(entries@.len(), |j: int| 0);
    let mut c = n;
    while c > 0
        invariant
            m == entries@.len(),
            c <= n,
            forall|k: int| 0 <= k < entries@.len() ==> 1 <= (#[trigger] entries@[k]).cnt <= n,
            forall|k1: int, k2: int|
                0 <= k1 < k2 < entries@.len() ==> entries@[k1].first < entries@[k2].first,
            src.len() == picked@.len(),
            forall|k: int|
                0 <= k < picked@.len() ==> 0 <= #[trigger] src[k] < m && entries@[src[k]]
                    == picked@[k],
            pos.len() == m,
            forall|k: int| 0 <= k < picked@.len() ==> (#[trigger] picked@[k]).cnt > c,
            forall|j: int|
                0 <= j < m && (#[trigger] entries@[j]).cnt > c ==> 0 <= pos[j] < picked@.len()
                    && picked@[pos[j]] == entries@[j],
            forall|k1: int, k2: int|
                0 <= k1 < k2 < picked@.len() ==> picked@[k1].cnt > picked@[k2].cnt || (
                picked@[k1].cnt == picked@[k2].cnt && picked@[k1].first < picked@[k2].first),
        decreases c,
    {
        let mut j2: usize = 0;
        while j2 < m
            invariant
                m == entries@.len(),
                1 <= c <= n,
                j2 <= m,
                forall|k: int| 0 <= k < entries@.len() ==> 1 <= (#[trigger] entries@[k]).cnt <= n,
                forall|k1: int, k2: int|
                    0 <= k1 < k2 < entries@.len() ==> entries@[k1].first < entries@[k2].first,
                src.len() == picked@.len(),
                forall|k: int|
                    0 <= k < picked@.len() ==> 0 <= #[trigger] src[k] < m && entries@[src[k]]
                        == picked@[k],
                pos.len() == m,
                forall|k: int| 0 <= k < picked@.len() ==> (#[trigger] picked@[k]).cnt >= c,
                forall|k: int|
                    0 <= k < picked@.len() && (#[trigger] picked@[k]).cnt == c ==> src[k] < j2,
                forall|j: int|
                    0 <= j < m && ((#[trigger] entries@[j]).cnt > c || (entries@[j].cnt == c && j
                        < j2)) ==> 0 <= pos[j] < picked@.len() && picked@[pos[j]] == entries@[j],
                forall|k1: int, k2: int|
                    0 <= k1 < k2 < picked@.len() ==> picked@[k1].cnt > picked@[k2].cnt || (
                    picked@[k1].cnt == picked@[k2].cnt && picked@[k1].first < picked@[k2].first),
            decreases m - j2,
        {
            let e = entries[j2];
            if e.cnt == c {
                proof {
                    assert forall|k: int|
                        0 <= k < picked@.len() implies picked@[k].cnt > c || (picked@[k].cnt == c
                        && picked@[k].first < e.first) by {
                        if picked@[k].cnt == c {
                            assert(entries@[src[k]] == picked@[k]);
                            assert(entries@[src[k]].first < entries@[j2 as int].first);
                        }
                    }
                }
                let ghost picked0 = picked@;
                picked.push(e);
                proof {
                    src = src.push(j2 as int);
                    pos = pos.update(j2 as int, picked0.len() as int);
                    assert(picked@[picked0.len() as int] == entries@[j2 as int]);
                }
            }
            j2 += 1;
        }
        c -= 1;
    }
    proof {
        assert forall|j: int|
            0 <= j < entries@.len() implies 0 <= #[trigger] pos[j] < picked@.len()
            && picked@[pos[j]] == entries@[j] by {
            assert(entries@[j].cnt > 0);
        }
    }
    (picked, Ghost(src), Ghost(pos))
}

/// Clones, for each picked entry, the track value at its first-occurrence
/// position of the three dimension results laid end to end.
fn materialize_picks(
    a: &Vec<TrackHeader>,
    b: &Vec<TrackHeader>,
    c: &Vec<TrackHeader>,
    picked: &Vec<Entry>,
) -> (r: Vec<TrackHeader>)
    requires
        a@.len() + b@.len() + c@.len() <= usize::MAX,
        forall|k: int|
            0 <= k < picked@.len() ==> (#[trigger] picked@[k]).first < a@.len() + b@.len()
                + c@.len(),
    ensures
        r@.len() == picked@.len(),
        forall|k: int|
            0 <= k < r@.len() ==> (#[trigger] r@[k]).id == (a@ + b@ + c@)[picked@[k].first as int].id
                && r@[k]@ == (a@ + b@ + c@)[picked@[k].first as int]@,
{
    let ghost cat = a@ + b@ + c@;
    let pn = picked.len();
    let mut r: Vec<TrackHeader> = Vec::new();
    let mut k: usize = 0;
    while k < pn
        invariant
            pn == picked@.len(),
            k <= pn,
            cat == a@ + b@ + c@,
            a@.len() + b@.len() + c@.len() <= usize::MAX,
            forall|k1: int| 0 <= k1 < picked@.len() ==> (#[trigger] picked@[k1]).first < cat.len(),
            r@.len() == k,
            forall|k1: int|
                0 <= k1 < k ==> (#[trigger] r@[k1]).id == cat[picked@[k1].first as int].id
                    && r@[k1]@ == cat[picked@[k1].first as int]@,
        decreases pn - k,
    {
        let e = picked[k];
        let t = track_at(a, b, c, e.first);
        r.push(t.clone());
        proof {
            let p = picked@[k as int].first as int;
            assert(r@[k as int]@ == cat[p]@);
            assert(r@[k as int].id == cat[p].id);
        }
        k += 1;
    }
    r
}

/// Every picked entry is one of the collected entries, hence valid.
proof fn lemma_picked_valid(cids: Seq<i64>, entries: Seq<Entry>, picked: Seq<Entry>, src: Seq<int>)
    requires
        forall|k: int| 0 <= k < entries.len() ==> entry_valid(cids, #[trigger] entries[k]),
        src.len() == picked.len(),
        forall|k: int|
            0 <= k < picked.len() ==> 0 <= #[trigger] src[k] < entries.len() && entries[src[k]]
                == picked[k],
    ensures
        forall|k: int| 0 <= k < picked.len() ==> entry_valid(cids, #[trigger] picked[k]),
{
    assert forall|k: int|
        0 <= k < picked.len() implies entry_valid(cids, #[trigger] picked[k]) by {
        assert(0 <= src[k] < entries.len());
        assert(entry_valid(cids, entries[src[k]]));
    }
}

/// The output ids are exactly the ids occurring in `cids`: each output id
/// occurs, and each occurring id is some output id. An empty concatenation
/// leaves an empty output.
#[verifier::rlimit(100)]
proof fn lemma_recommend_coverage(
    cids: Seq<i64>,
    entries: Seq<Entry>,
    picked: Seq<Entry>,
    r: Seq<TrackHeader>,
    pos: Seq<int>,
)
    requires
        forall|k: int| 0 <= k < picked.len() ==> entry_valid(cids, #[trigger] picked[k]),
        forall|p: int|
            0 <= p < cids.len() && is_first_occurrence(cids, p) ==> exists|k: int|
                0 <= k < entries.len() && (#[trigger] entries[k]).first == p,
        pos.len() == entries.len(),
        forall|j: int|
            0 <= j < entries.len() ==> 0 <= #[trigger] pos[j] < picked.len() && picked[pos[j]]
                == entries[j],
        r.len() == picked.len(),
        forall|k1: int|
            0 <= k1 < r.len() ==> (#[trigger] r[k1]).id == cids[picked[k1].first as int],
    ensures
        forall|k: int| 0 <= k < r.len() ==> cids.contains(#[trigger] r[k].id),
        forall|x: i64|
            cids.contains(x) ==> exists|k: int| 0 <= k < r.len() && #[trigger] r[k].id == x,
        cids.len() == 0 ==> r.len() == 0,
{
    assert forall|k1: int| 0 <= k1 < r.len() implies cids.contains(#[trigger] r[k1].id) by {
        let p = picked[k1].first as int;
        assert(cids[p] == r[k1].id);
    }
    assert forall|x: i64| cids.contains(x) implies exists|k1: int|
        0 <= k1 < r.len() && #[trigger] r[k1].id == x by {
        lemma_first_index_props(cids, x);
        let p = first_index_of(cids, x);
        let ke = choose|ke: int| 0 <= ke < entries.len() && (#[trigger] entries[ke]).first == p;
        let kp = pos[ke];
        assert(picked[kp] == entries[ke]);
        assert(r[kp].id == cids[p]);
    }
    if cids.len() == 0 && r.len() > 0 {
        assert(entry_valid(cids, picked[0]));
    }
}

/// The output is strictly ordered by `ranked_before`, so no id repeats, and
/// each output value is the track at its id's first occurrence.
#[verifier::rlimit(100)]
proof fn lemma_recommend_order(
    cat: Seq<TrackHeader>,
    cids: Seq<i64>,
    picked: Seq<Entry>,
    r: Seq<TrackHeader>,
)
    requires
        cids == track_ids(cat),
        forall|k: int| 0 <= k < picked.len() ==> entry_valid(cids, #[trigger] picked[k]),
        forall|k1: int, k2: int|
            0 <= k1 < k2 < picked.len() ==> picked[k1].cnt > picked[k2].cnt || (picked[k1].cnt
                == picked[k2].cnt && picked[k1].first < picked[k2].first),
        r.len() == picked.len(),
        forall|k1: int|
            0 <= k1 < r.len() ==> (#[trigger] r[k1]).id == cids[picked[k1].first as int]
                && r[k1]@ == cat[picked[k1].first as int]@,
    ensures
        forall|k1: int, k2: int| 0 <= k1 < k2 < r.len() ==> r[k1].id != r[k2].id,
        forall|k1: int, k2: int|
            0 <= k1 < k2 < r.len() ==> ranked_before(cids, r[k1].id, r[k2].id),
        forall|k: int|
            0 <= k < r.len() ==> (#[trigger] r[k])@ == cat[first_index_of(cids, r[k].id)]@,
{
    assert forall|k1: int, k2: int|
        0 <= k1 < k2 < r.len() implies r[k1].id != r[k2].id && ranked_before(
        cids,
        r[k1].id,
        r[k2].id,
    ) by {
        let e1 = picked[k1];
        let e2 = picked[k2];
        let p1 = e1.first as int;
        let p2 = e2.first as int;
        lemma_first_index_at(cids, p1);
        lemma_first_index_at(cids, p2);
        if e1.cnt == e2.cnt {
            assert(p1 < p2);
            assert(cids[p1] != cids[p2]);
        } else {
            assert(count_of(cids, cids[p1]) != count_of(cids, cids[p2]));
            assert(cids[p1] != cids[p2]);
        }
    }
    assert forall|k1: int| 0 <= k1 < r.len() implies (#[trigger] r[k1])@ == cat[first_index_of(
        cids,
        r[k1].id,
    )]@ by {
        let p = picked[k1].first as int;
        lemma_first_index_at(cids, p);
    }
}

/// Merges the three dimension results into one ranked, deduplicated track
/// list, most relevant first.
///
/// The three lists are laid end to end in the fixed order time, season,
/// weather. Every distinct track id of that concatenation appears exactly
/// once in the result, represented by the track value at its first
/// occurrence; the order is `ranked_before`: descending frequency, ties
/// broken by first encounter. Empty inputs give an empty result, not an
/// error.
#[verifier::rlimit(100)]
pub fn recommend(
    time_tracks: &Vec<TrackHeader>,
    season_tracks: &Vec<TrackHeader>,
    weather_tracks: &Vec<TrackHeader>,
) -> (r: Vec<TrackHeader>)
    requires
        time_tracks@.len() + season_tracks@.len() + weather_tracks@.len() <= usize::MAX,
    ensures
        ({
            let cat = time_tracks@ + season_tracks@ + weather_tracks@;
            let ids = track_ids(cat);
            &&& forall|k: int| 0 <= k < r@.len() ==> ids.contains(#[trigger] r@[k].id)
            &&& forall|x: i64|
                ids.contains(x) ==> exists|k: int| 0 <= k < r@.len() && #[trigger] r@[k].id == x
            &&& forall|k1: int, k2: int| 0 <= k1 < k2 < r@.len() ==> r@[k1].id != r@[k2].id
            &&& forall|k1: int, k2: int|
                0 <= k1 < k2 < r@.len() ==> ranked_before(ids, r@[k1].id, r@[k2].id)
            &&& forall|k: int|
                0 <= k < r@.len() ==> (#[trigger] r@[k])@ == cat[first_index_of(ids, r@[k].id)]@
            &&& (cat.len() == 0 ==> r@.len() == 0)
            &&& ranked_sequence_of(ids, r@)
        }),
{
    let ghost cat = time_tracks@ + season_tracks@ + weather_tracks@;
    let ghost cids = track_ids(cat);

    let mut ids: Vec<i64> = Vec::new();
    push_ids(&mut ids, time_tracks);
    push_ids(&mut ids, season_tracks);
    push_ids(&mut ids, weather_tracks);
    proof {
        assert(ids@ =~= cids);
    }

    let n = ids.len();
    let entries = collect_entries(&ids);
    let (picked, src, pos) = rank_entries(&entries, n);

    proof {
        lemma_picked_valid(cids, entries@, picked@, src@);
        assert forall|k1: int|
            0 <= k1 < picked@.len() implies (#[trigger] picked@[k1]).first < cat.len() by {
            assert(entry_valid(cids, picked@[k1]));
        }
    }

    let result = materialize_picks(time_tracks, season_tracks, weather_tracks, &picked);

    proof {
        assert forall|k1: int|
            0 <= k1 < result@.len() implies (#[trigger] result@[k1]).id == cids[picked@[k1].first as int]
            && result@[k1]@ == cat[picked@[k1].first as int]@ by {
            let p = picked@[k1].first as int;
            assert(cids[p] == cat[p].id);
        }
        lemma_recommend_coverage(cids, entries@, picked@, result@, pos@);
        lemma_recommend_order(cat, cids, picked@, result@);
    }

    result
}

/// Returns a reference to the most frequent element of `slice`: the element
/// related by `==` to the largest number of elements, the earliest such
/// element on a tie. `None` exactly on an empty slice.
///
/// The frequency clauses are stated under `obeys_eq_spec`, which says that
/// the element type's `==` agrees with its specification; the library's own
/// `TrackHeader` (equality by id) obeys it.
pub fn get_most_matched_from<T: PartialEq>(slice: &[T]) -> (r: Option<&T>)
    ensures
        r is Some <==> slice@.len() > 0,
        T::obeys_eq_spec() ==> match r {
            Some(t) => exists|i: int|
                is_first_most_frequent_at(slice@, i) && *t == slice@[i],
            None => slice@.len() == 0,
        },
{
    if slice.is_empty() {
        return None;
    }

    let n = slice.len();
    let mut best: usize = 0;
    let mut max_count: usize = 0;
    let mut i: usize = 0;
    while i < n
        invariant
            n == slice@.len(),
            0 < n,
            i <= n,
            best < n,
            max_count <= n,
            T::obeys_eq_spec() ==> {
                &&& (i == 0 ==> best == 0 && max_count == 0)
                &&& (i > 0 ==> {
                    &&& best < i
                    &&& max_count == eq_count(slice@, slice@[best as int])
                    &&& forall|j: int|
                        0 <= j < i ==> eq_count(slice@, slice@[j]) <= max_count
                    &&& forall|j: int| 0 <= j < best ==> eq_count(slice@, slice@[j]) < max_count
                })
            },
        decreases n - i,
    {
        let mut current_count: usize = 0;
        let mut j: usize = 0;
        while j < n
            invariant
                n == slice@.len(),
                i < n,
                j <= n,
                current_count <= j,
                T::obeys_eq_spec() ==> current_count == eq_count(
                    slice@.take(j as int),
                    slice@[i as int],
                ),
            decreases n - j,
        {
            proof {
                assert(slice@.take(j + 1).drop_last() =~= slice@.take(j as int));
                assert(slice@.take(j + 1).last() == slice@[j as int]);
            }
            if slice_index_get(slice, i).eq(slice_index_get(slice, j)) {
                current_count += 1;
            }
            j += 1;
        }
        proof {
            assert(slice@.take(n as int) =~= slice@);
        }

        if current_count > max_count {
            max_count = current_count;
            best = i;
        }
        i += 1;
    }

    let r = slice_index_get(slice, best);
    proof {
        if T::obeys_eq_spec() {
            assert(is_first_most_frequent_at(slice@, best as int));
        }
    }
    Some(r)
}

} // verus!
