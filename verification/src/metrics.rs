//! Session tallies over the shots of a break: hits, headshots, kills,
//! moving shots, and the order statistics of reaction times.
use vstd::prelude::*;
use vstd::multiset::Multiset;
use vstd::relations::{sorted_by, total_ordering};
use crate::telemetry::{DirectionBias, ShotOutcome};

verus! {

/// Number of shots in `s` that satisfy `p`.
pub open spec fn count_where(s: Seq<ShotOutcome>, p: spec_fn(ShotOutcome) -> bool) -> nat
    decreases s.len(),
{
    if s.len() == 0 {
        0
    } else {
        count_where(s.drop_last(), p) + if p(s.last()) { 1nat } else { 0nat }
    }
}

/// Shots that hit.
pub open spec fn hit_shot() -> spec_fn(ShotOutcome) -> bool {
    |x: ShotOutcome| x.hit
}

/// Headshots.
pub open spec fn head_shot() -> spec_fn(ShotOutcome) -> bool {
    |x: ShotOutcome| x.headshot
}

/// A headshot always counts as a kill; any other hit counts as one when
/// the magazine held a multiple of three rounds before the shot.
pub open spec fn kill_shot() -> spec_fn(ShotOutcome) -> bool {
    |x: ShotOutcome| x.headshot || (x.hit && x.ammo_before % 3 == 0)
}

/// Shots fired while moving.
pub open spec fn moving_shot() -> spec_fn(ShotOutcome) -> bool {
    |x: ShotOutcome| x.moving
}

/// Shots with a recorded aim error.
pub open spec fn aimed_shot() -> spec_fn(ShotOutcome) -> bool {
    |x: ShotOutcome| x.has_aim_error
}

/// The reaction times recorded in `s`, in shot order.
pub open spec fn reaction_times(s: Seq<ShotOutcome>) -> Seq<u32>
    decreases s.len(),
{
    if s.len() == 0 {
        Seq::empty()
    } else {
        match s.last().reaction_time_ms {
            Some(t) => reaction_times(s.drop_last()).push(t),
            None => reaction_times(s.drop_last()),
        }
    }
}

/// The order on reaction times.
pub open spec fn ascending() -> spec_fn(u32, u32) -> bool {
    |a: u32, b: u32| a <= b
}

/// The reaction times of `s` in ascending order.
pub open spec fn sorted_reaction_times(s: Seq<ShotOutcome>) -> Seq<u32> {
    reaction_times(s).sort_by(ascending())
}

/// Twice the median of an ascending sequence: the sum of its two middle
/// elements for an even count, the middle element doubled for an odd
/// count, zero when it is empty. Halving it gives the median, the mean of
/// the two middle values for an even count.
pub open spec fn median_x2_of(t: Seq<u32>) -> int {
    if t.len() == 0 {
        0
    } else {
        t[(t.len() - 1) / 2] + t[(t.len() / 2) as int]
    }
}

/// The element at nine tenths of an ascending sequence, rounded down;
/// zero when it is empty.
pub open spec fn p90_of(t: Seq<u32>) -> u32 {
    if t.len() == 0 {
        0
    } else {
        let idx = (9 * t.len()) / 10;
        t[(if idx < t.len() - 1 { idx } else { (t.len() - 1) as nat }) as int]
    }
}

/// The bias named by the four threshold tests on the mean aim error: a
/// vertical and a horizontal lean combine, a lean counts only when exactly
/// one side of its axis passed, and any contradiction reads as centred.
pub open spec fn bias_of(is_high: bool, is_low: bool, is_left: bool, is_right: bool) -> DirectionBias {
    if (is_high && is_low) || (is_left && is_right) {
        DirectionBias::Center
    } else if is_high {
        if is_left {
            DirectionBias::HighLeft
        } else if is_right {
            DirectionBias::HighRight
        } else {
            DirectionBias::High
        }
    } else if is_low {
        if is_left {
            DirectionBias::LowLeft
        } else if is_right {
            DirectionBias::LowRight
        } else {
            DirectionBias::Low
        }
    } else if is_left {
        DirectionBias::Left
    } else if is_right {
        DirectionBias::Right
    } else {
        DirectionBias::Center
    }
}

/// The integer part of a session's metrics.
pub struct SessionCounts {
    pub session_id: String,
    pub weapon_id: String,
    pub start_time_ms: u64,
    pub end_time_ms: u64,
    pub duration_seconds: u32,
    pub shots_fired: u32,
    pub hits: u32,
    pub misses: u32,
    pub headshots: u32,
    pub kills: u32,
    /// Shots fired while moving faster than the steady-aim threshold.
    pub moving_shots: u32,
    /// Shots for which an aim error was recorded.
    pub aimed_shots: u32,
    /// All recorded reaction times, ascending.
    pub reaction_times_ms: Vec<u32>,
    /// Twice the median reaction time, so that a half millisecond is exact.
    pub median_reaction_time_x2: u64,
    pub p90_reaction_time_ms: u32,
}

pub struct MetricsCalculator;

proof fn lemma_count_bounded(s: Seq<ShotOutcome>, p: spec_fn(ShotOutcome) -> bool)
    ensures
        count_where(s, p) <= s.len(),
    decreases s.len(),
{
    if s.len() > 0 {
        lemma_count_bounded(s.drop_last(), p);
    }
}

proof fn lemma_count_step(s: Seq<ShotOutcome>, i: int, p: spec_fn(ShotOutcome) -> bool)
    requires
        0 <= i < s.len(),
    ensures
        count_where(s.take(i + 1), p) == count_where(s.take(i), p) + if p(s[i]) { 1nat } else { 0nat },
{
    assert(s.take(i + 1).drop_last() =~= s.take(i));
}

proof fn lemma_times_step(s: Seq<ShotOutcome>, i: int)
    requires
        0 <= i < s.len(),
    ensures
        reaction_times(s.take(i + 1)) == match s[i].reaction_time_ms {
            Some(t) => reaction_times(s.take(i)).push(t),
            None => reaction_times(s.take(i)),
        },
{
    assert(s.take(i + 1).drop_last() =~= s.take(i));
}

/// Tally bounds: every headshot is a kill, and no count exceeds the shots.
pub proof fn lemma_tally_bounds(s: Seq<ShotOutcome>)
    ensures
        count_where(s, head_shot()) <= count_where(s, kill_shot()),
        count_where(s, kill_shot()) <= s.len(),
        count_where(s, hit_shot()) <= s.len(),
        count_where(s, moving_shot()) <= s.len(),
        reaction_times(s).len() <= s.len(),
    decreases s.len(),
{
    if s.len() > 0 {
        lemma_tally_bounds(s.drop_last());
    }
}

/// When every headshot is also a hit, the headshots are among the hits, so
/// the headshot share of hits is at most one.
pub proof fn lemma_headshots_within_hits(s: Seq<ShotOutcome>)
    requires
        forall|i: int| 0 <= i < s.len() && #[trigger] s[i].headshot ==> s[i].hit,
    ensures
        count_where(s, head_shot()) <= count_where(s, hit_shot()),
    decreases s.len(),
{
    if s.len() > 0 {
        assert forall|i: int| 0 <= i < s.drop_last().len() && #[trigger] s.drop_last()[i].headshot implies s.drop_last()[i].hit by {
            assert(s.drop_last()[i] == s[i]);
        }
        lemma_headshots_within_hits(s.drop_last());
        assert(s.last() == s[s.len() - 1]);
    }
}

proof fn lemma_ascending_total()
    ensures
        total_ordering(ascending()),
{
}

/// The reaction time a shot contributes, as a multiset of zero or one element.
pub open spec fn time_of(x: ShotOutcome) -> Multiset<u32> {
    match x.reaction_time_ms {
        Some(t) => Multiset::singleton(t),
        None => Multiset::empty(),
    }
}

proof fn lemma_count_remove(p: Seq<ShotOutcome>, i: int, f: spec_fn(ShotOutcome) -> bool)
    requires
        0 <= i < p.len(),
    ensures
        count_where(p, f) == count_where(p.remove(i), f) + if f(p[i]) { 1nat } else { 0nat },
    decreases p.len(),
{
    if i == p.len() - 1 {
        assert(p.remove(i) =~= p.drop_last());
    } else {
        lemma_count_remove(p.drop_last(), i, f);
        assert(p.remove(i).drop_last() =~= p.drop_last().remove(i));
        assert(p.remove(i).last() == p.last());
    }
}

proof fn lemma_times_push(s: Seq<ShotOutcome>)
    requires
        s.len() > 0,
    ensures
        reaction_times(s).to_multiset() =~= reaction_times(s.drop_last()).to_multiset().add(time_of(s.last())),
{
    broadcast use vstd::multiset::group_multiset_axioms;

    match s.last().reaction_time_ms {
        Some(t) => {
            vstd::seq_lib::to_multiset_build(reaction_times(s.drop_last()), t);
        },
        None => {},
    }
}

proof fn lemma_times_remove(p: Seq<ShotOutcome>, i: int)
    requires
        0 <= i < p.len(),
    ensures
        reaction_times(p).to_multiset() =~= reaction_times(p.remove(i)).to_multiset().add(time_of(p[i])),
    decreases p.len(),
{
    broadcast use vstd::multiset::group_multiset_axioms;

    lemma_times_push(p);
    if i == p.len() - 1 {
        assert(p.remove(i) =~= p.drop_last());
    } else {
        lemma_times_remove(p.drop_last(), i);
        assert(p.remove(i).drop_last() =~= p.drop_last().remove(i));
        assert(p.remove(i).last() == p.last());
        lemma_times_push(p.remove(i));
    }
}

/// Removing the last shot of `s` and one equal shot of a reordering `p`
/// leaves reorderings of each other.
proof fn lemma_shrink_reordering(s: Seq<ShotOutcome>, p: Seq<ShotOutcome>) -> (i: int)
    requires
        s.len() > 0,
        s.to_multiset() == p.to_multiset(),
    ensures
        0 <= i < p.len(),
        p[i] == s.last(),
        s.drop_last().to_multiset() == p.remove(i).to_multiset(),
{
    broadcast use vstd::multiset::group_multiset_axioms;

    let x = s.last();
    assert(s.contains(x)) by {
        assert(s[s.len() - 1] == x);
    }
    vstd::seq_lib::to_multiset_contains(s, x);
    vstd::seq_lib::to_multiset_contains(p, x);
    let i = choose|i: int| 0 <= i < p.len() && p[i] == x;
    vstd::seq_lib::to_multiset_remove(p, i);
    vstd::seq_lib::to_multiset_remove(s, s.len() - 1);
    assert(s.remove(s.len() - 1) =~= s.drop_last());
    i
}

proof fn lemma_reordering_counts(s: Seq<ShotOutcome>, p: Seq<ShotOutcome>, f: spec_fn(ShotOutcome) -> bool)
    requires
        s.to_multiset() == p.to_multiset(),
    ensures
        count_where(s, f) == count_where(p, f),
    decreases s.len(),
{
    vstd::seq_lib::to_multiset_len(s);
    vstd::seq_lib::to_multiset_len(p);
    if s.len() > 0 {
        let i = lemma_shrink_reordering(s, p);
        lemma_reordering_counts(s.drop_last(), p.remove(i), f);
        lemma_count_remove(p, i, f);
    }
}

proof fn lemma_reordering_times(s: Seq<ShotOutcome>, p: Seq<ShotOutcome>)
    requires
        s.to_multiset() == p.to_multiset(),
    ensures
        reaction_times(s).to_multiset() == reaction_times(p).to_multiset(),
    decreases s.len(),
{
    vstd::seq_lib::to_multiset_len(s);
    vstd::seq_lib::to_multiset_len(p);
    if s.len() > 0 {
        let i = lemma_shrink_reordering(s, p);
        lemma_reordering_times(s.drop_last(), p.remove(i));
        lemma_times_remove(p, i);
        lemma_times_push(s);
    } else {
        assert(p.len() == 0);
        assert(s =~= p);
    }
}

/// The tally does not depend on the order of the shots: a reordering of the
/// same shots gives the same number of shots, the same count for every
/// criterion, the same sorted reaction times, and so the same median and
/// ninetieth percentile.
pub proof fn lemma_tally_order_independent(s: Seq<ShotOutcome>, p: Seq<ShotOutcome>)
    requires
        s.to_multiset() == p.to_multiset(),
    ensures
        s.len() == p.len(),
        forall|f: spec_fn(ShotOutcome) -> bool| #[trigger] count_where(s, f) == count_where(p, f),
        sorted_reaction_times(s) == sorted_reaction_times(p),
        median_x2_of(sorted_reaction_times(s)) == median_x2_of(sorted_reaction_times(p)),
        p90_of(sorted_reaction_times(s)) == p90_of(sorted_reaction_times(p)),
{
    vstd::seq_lib::to_multiset_len(s);
    vstd::seq_lib::to_multiset_len(p);
    assert forall|f: spec_fn(ShotOutcome) -> bool| #[trigger] count_where(s, f) == count_where(p, f) by {
        lemma_reordering_counts(s, p, f);
    }
    lemma_reordering_times(s, p);
    lemma_ascending_total();
    reaction_times(s).lemma_sort_by_ensures(ascending());
    reaction_times(p).lemma_sort_by_ensures(ascending());
    vstd::seq_lib::lemma_sorted_unique(sorted_reaction_times(s), sorted_reaction_times(p), ascending());
}

/// Whether `m` holds the tally of `shots`: its count of shots, of hits and
/// misses, headshots, kills, moving and aimed shots, its sorted reaction
/// times, their median (doubled) and ninetieth percentile.
pub open spec fn is_tally_of(m: SessionCounts, shots: Seq<ShotOutcome>) -> bool {
    &&& m.shots_fired == shots.len()
    &&& m.hits == count_where(shots, hit_shot())
    &&& m.misses == shots.len() - count_where(shots, hit_shot())
    &&& m.headshots == count_where(shots, head_shot())
    &&& m.kills == count_where(shots, kill_shot())
    &&& m.moving_shots == count_where(shots, moving_shot())
    &&& m.aimed_shots == count_where(shots, aimed_shot())
    &&& m.reaction_times_ms@ == sorted_reaction_times(shots)
    &&& m.median_reaction_time_x2 == median_x2_of(sorted_reaction_times(shots))
    &&& m.p90_reaction_time_ms == p90_of(sorted_reaction_times(shots))
}

/// Two session tallies of the same shots in different orders agree in every
/// count, in the sorted reaction times, the median and the ninetieth
/// percentile.
pub proof fn lemma_reordered_sessions_agree(
    a: SessionCounts,
    b: SessionCounts,
    s: Seq<ShotOutcome>,
    p: Seq<ShotOutcome>,
)
    requires
        is_tally_of(a, s),
        is_tally_of(b, p),
        s.to_multiset() == p.to_multiset(),
    ensures
        a.shots_fired == b.shots_fired,
        a.hits == b.hits,
        a.misses == b.misses,
        a.headshots == b.headshots,
        a.kills == b.kills,
        a.moving_shots == b.moving_shots,
        a.aimed_shots == b.aimed_shots,
        a.reaction_times_ms@ == b.reaction_times_ms@,
        a.median_reaction_time_x2 == b.median_reaction_time_x2,
        a.p90_reaction_time_ms == b.p90_reaction_time_ms,
{
    lemma_tally_order_independent(s, p);
    assert(count_where(s, hit_shot()) == count_where(p, hit_shot()));
    assert(count_where(s, head_shot()) == count_where(p, head_shot()));
    assert(count_where(s, kill_shot()) == count_where(p, kill_shot()));
    assert(count_where(s, moving_shot()) == count_where(p, moving_shot()));
    assert(count_where(s, aimed_shot()) == count_where(p, aimed_shot()));
}

/// Counting the shots that satisfy `p` gives the length of the shots that
/// `p` keeps.
proof fn lemma_count_is_filter_len(s: Seq<ShotOutcome>, p: spec_fn(ShotOutcome) -> bool)
    ensures
        count_where(s, p) == s.filter(p).len(),
    decreases s.len(),
{
    reveal(Seq::filter);
    if s.len() > 0 {
        lemma_count_is_filter_len(s.drop_last(), p);
    }
}

/// What each count of a tally counts, shot by shot: hits are the shots that
/// hit and misses the others; headshots the shots flagged as headshots;
/// kills the headshots and the other hits fired from a magazine holding a
/// multiple of three rounds; moving shots those fired while moving; aimed
/// shots exactly those with a recorded aim error, whether they hit or not.
pub proof fn lemma_tally_counts_by_shot(m: SessionCounts, s: Seq<ShotOutcome>)
    requires
        is_tally_of(m, s),
    ensures
        m.hits == s.filter(|x: ShotOutcome| x.hit).len(),
        m.misses == s.filter(|x: ShotOutcome| !x.hit).len(),
        m.headshots == s.filter(|x: ShotOutcome| x.headshot).len(),
        m.kills == s.filter(|x: ShotOutcome| x.headshot || (x.hit && x.ammo_before % 3 == 0)).len(),
        m.moving_shots == s.filter(|x: ShotOutcome| x.moving).len(),
        m.aimed_shots == s.filter(|x: ShotOutcome| x.has_aim_error).len(),
{
    let fh = |x: ShotOutcome| x.hit;
    let fm = |x: ShotOutcome| !x.hit;
    let fhs = |x: ShotOutcome| x.headshot;
    let fk = |x: ShotOutcome| x.headshot || (x.hit && x.ammo_before % 3 == 0);
    let fmv = |x: ShotOutcome| x.moving;
    let fa = |x: ShotOutcome| x.has_aim_error;
    assert(hit_shot() =~= fh);
    assert(head_shot() =~= fhs);
    assert(kill_shot() =~= fk);
    assert(moving_shot() =~= fmv);
    assert(aimed_shot() =~= fa);
    lemma_count_is_filter_len(s, fh);
    lemma_count_is_filter_len(s, fm);
    lemma_count_is_filter_len(s, fhs);
    lemma_count_is_filter_len(s, fk);
    lemma_count_is_filter_len(s, fmv);
    lemma_count_is_filter_len(s, fa);
    lemma_hits_and_misses(s);
}

/// Each recorded reaction time `v` occurs in the reaction times of `s` as
/// often as shots of `s` recorded it.
proof fn lemma_times_count(s: Seq<ShotOutcome>, v: u32)
    ensures
        reaction_times(s).to_multiset().count(v) == s.filter(|x: ShotOutcome| x.reaction_time_ms == Some(v)).len(),
    decreases s.len(),
{
    broadcast use vstd::multiset::group_multiset_axioms;

    reveal(Seq::filter);
    if s.len() == 0 {
        vstd::seq_lib::to_multiset_len(reaction_times(s));
    } else {
        lemma_times_count(s.drop_last(), v);
        match s.last().reaction_time_ms {
            Some(t) => {
                vstd::seq_lib::to_multiset_build(reaction_times(s.drop_last()), t);
            },
            None => {},
        }
    }
}

/// The reaction times of a tally are the recorded ones, each as often as
/// shots recorded it, in ascending order; the doubled median is the middle
/// time doubled for an odd count and the sum of the two middle times for an
/// even one; the ninetieth percentile is the time at nine tenths of the
/// count, rounded down; both are zero when no time was recorded.
pub proof fn lemma_tally_order_statistics(m: SessionCounts, s: Seq<ShotOutcome>)
    requires
        is_tally_of(m, s),
    ensures
        ({
            let t = m.reaction_times_ms@;
            let n = t.len() as int;
            &&& forall|v: u32|
                #[trigger] t.to_multiset().count(v) == s.filter(|x: ShotOutcome| x.reaction_time_ms == Some(v)).len()
            &&& forall|i: int, j: int| 0 <= i <= j < n ==> t[i] <= t[j]
            &&& n == 0 ==> m.median_reaction_time_x2 == 0 && m.p90_reaction_time_ms == 0
            &&& n > 0 && n % 2 == 1 ==> m.median_reaction_time_x2 == 2 * t[n / 2]
            &&& n > 0 && n % 2 == 0 ==> m.median_reaction_time_x2 == t[n / 2 - 1] + t[n / 2]
            &&& n > 0 ==> m.p90_reaction_time_ms == t[(9 * n) / 10]
        }),
{
    let t = m.reaction_times_ms@;
    lemma_ascending_total();
    reaction_times(s).lemma_sort_by_ensures(ascending());
    assert forall|v: u32| #[trigger] t.to_multiset().count(v) == s.filter(
        |x: ShotOutcome| x.reaction_time_ms == Some(v),
    ).len() by {
        lemma_times_count(s, v);
    }
    assert forall|i: int, j: int| 0 <= i <= j < t.len() implies t[i] <= t[j] by {
        if i < j {
            assert(ascending()(t[i], t[j]));
        }
    }
    let n = t.len();
    if n > 0 {
        assert((9 * n) / 10 < n) by (nonlinear_arith)
            requires
                n > 0,
        ;
    }
}

/// Every shot either hits or misses.
proof fn lemma_hits_and_misses(s: Seq<ShotOutcome>)
    ensures
        count_where(s, hit_shot()) + count_where(s, |x: ShotOutcome| !x.hit) == s.len(),
    decreases s.len(),
{
    if s.len() > 0 {
        lemma_hits_and_misses(s.drop_last());
    }
}

/// Sorts reaction times into ascending order by insertion.
fn sort_ascending(v: &Vec<u32>) -> (r: Vec<u32>)
    ensures
        r@ == v@.sort_by(ascending()),
{
    let mut r: Vec<u32> = Vec::new();
    let mut i: usize = 0;
    assert(r@ =~= v@.take(0));
    while i < v.len()
        invariant
            i <= v.len(),
            sorted_by(r@, ascending()),
            r@.to_multiset() == v@.take(i as int).to_multiset(),
        decreases v.len() - i,
    {
        let t = v[i];
        let mut k: usize = 0;
        while k < r.len() && r[k] <= t
            invariant
                k <= r.len(),
                forall|j: int| 0 <= j < k ==> r@[j] <= t,
            decreases r.len() - k,
        {
            k = k + 1;
        }
        let ghost before = r@;
        proof {
            if k < r.len() {
                assert forall|j: int| k <= j < before.len() implies t < before[j] by {
                    assert(ascending()(before[k as int], before[j]) || j == k);
                }
            }
        }
        r.insert(k, t);
        proof {
            vstd::seq_lib::to_multiset_insert(before, k as int, t);
            vstd::seq_lib::to_multiset_build(v@.take(i as int), t);
            assert(v@.take(i + 1) =~= v@.take(i as int).push(t));
            assert forall|a: int, b: int| 0 <= a < b < r@.len() implies #[trigger] ascending()(
                r@[a],
                r@[b],
            ) by {
                if b < k {
                    assert(ascending()(before[a], before[b]));
                } else if b == k {
                    assert(before[a] <= t);
                } else if a < k {
                    assert(before[a] <= t);
                    assert(t < before[b - 1]);
                } else if a == k {
                    assert(t < before[b - 1]);
                } else {
                    assert(ascending()(before[a - 1], before[b - 1]));
                }
            }
        }
        i = i + 1;
    }
    proof {
        assert(v@.take(v@.len() as int) =~= v@);
        lemma_ascending_total();
        v@.lemma_sort_by_ensures(ascending());
        vstd::seq_lib::lemma_sorted_unique(r@, v@.sort_by(ascending()), ascending());
    }
    r
}

impl MetricsCalculator {
    /// Names the direction bias from the threshold tests on the mean
    /// vertical error (high, low) and horizontal error (left, right).
    pub fn classify_direction_bias(is_high: bool, is_low: bool, is_left: bool, is_right: bool) -> (b:
        DirectionBias)
        ensures
            b == bias_of(is_high, is_low, is_left, is_right),
    {
        match (is_high, is_low, is_left, is_right) {
            (true, false, true, false) => DirectionBias::HighLeft,
            (true, false, false, true) => DirectionBias::HighRight,
            (true, false, false, false) => DirectionBias::High,
            (false, true, true, false) => DirectionBias::LowLeft,
            (false, true, false, true) => DirectionBias::LowRight,
            (false, true, false, false) => DirectionBias::Low,
            (false, false, true, false) => DirectionBias::Left,
            (false, false, false, true) => DirectionBias::Right,
            _ => DirectionBias::Center,
        }
    }

    /// Tallies the shots of a session. The duration is the whole seconds
    /// between start and end (kept to its low 32 bits); misses are the
    /// shots that did not hit; reaction times come back sorted, with twice
    /// their median and their ninetieth percentile (index nine tenths of the
    /// count, rounded down), zero when none.
    pub fn compute_session_metrics(
        session_id: String,
        weapon_id: String,
        start_time_ms: u64,
        end_time_ms: u64,
        shots: &[ShotOutcome],
    ) -> (m: SessionCounts)
        requires
            start_time_ms <= end_time_ms,
            shots@.len() <= u32::MAX,
        ensures
            m.session_id == session_id,
            m.weapon_id == weapon_id,
            m.start_time_ms == start_time_ms,
            m.end_time_ms == end_time_ms,
            m.duration_seconds == #[verifier::truncate] (((end_time_ms - start_time_ms) / 1000) as u32),
            m.shots_fired == shots@.len(),
            m.hits == count_where(shots@, hit_shot()),
            m.misses == shots@.len() - count_where(shots@, hit_shot()),
            m.headshots == count_where(shots@, head_shot()),
            m.kills == count_where(shots@, kill_shot()),
            m.moving_shots == count_where(shots@, moving_shot()),
            m.aimed_shots == count_where(shots@, aimed_shot()),
            m.reaction_times_ms@ == sorted_reaction_times(shots@),
            m.median_reaction_time_x2 == median_x2_of(sorted_reaction_times(shots@)),
            m.p90_reaction_time_ms == p90_of(sorted_reaction_times(shots@)),
            is_tally_of(m, shots@),
    {
        let n = shots.len();
        let mut hits: u32 = 0;
        let mut headshots: u32 = 0;
        let mut kills: u32 = 0;
        let mut moving_shots: u32 = 0;
        let mut aimed_shots: u32 = 0;
        let mut times: Vec<u32> = Vec::new();
        let mut i: usize = 0;
        while i < n
            invariant
                n == shots@.len(),
                n <= u32::MAX,
                i <= n,
                hits == count_where(shots@.take(i as int), hit_shot()),
                headshots == count_where(shots@.take(i as int), head_shot()),
                kills == count_where(shots@.take(i as int), kill_shot()),
                moving_shots == count_where(shots@.take(i as int), moving_shot()),
                aimed_shots == count_where(shots@.take(i as int), aimed_shot()),
                times@ == reaction_times(shots@.take(i as int)),
            decreases n - i,
        {
            let shot = shots[i];
            proof {
                lemma_count_step(shots@, i as int, hit_shot());
                lemma_count_step(shots@, i as int, head_shot());
                lemma_count_step(shots@, i as int, kill_shot());
                lemma_count_step(shots@, i as int, moving_shot());
                lemma_count_step(shots@, i as int, aimed_shot());
                lemma_times_step(shots@, i as int);
                lemma_count_bounded(shots@.take(i as int), hit_shot());
                lemma_count_bounded(shots@.take(i as int), head_shot());
                lemma_count_bounded(shots@.take(i as int), kill_shot());
                lemma_count_bounded(shots@.take(i as int), moving_shot());
                lemma_count_bounded(shots@.take(i as int), aimed_shot());
            }
            if shot.hit {
                hits = hits + 1;
            }
            if shot.headshot {
                headshots = headshots + 1;
                kills = kills + 1;
            } else if shot.hit && shot.ammo_before % 3 == 0 {
                kills = kills + 1;
            }
            if let Some(rt) = shot.reaction_time_ms {
                times.push(rt);
            }
            if shot.has_aim_error {
                aimed_shots = aimed_shots + 1;
            }
            if shot.moving {
                moving_shots = moving_shots + 1;
            }
            i = i + 1;
        }
        proof {
            assert(shots@.take(n as int) =~= shots@);
            lemma_count_bounded(shots@, hit_shot());
            lemma_tally_bounds(shots@);
        }
        let sorted = sort_ascending(&times);
        proof {
            lemma_ascending_total();
            times@.lemma_sort_by_ensures(ascending());
            vstd::seq_lib::to_multiset_len(times@);
            vstd::seq_lib::to_multiset_len(sorted@);
        }
        let count = sorted.len();
        let median_x2: u64 = if count == 0 {
            0
        } else {
            sorted[(count - 1) / 2] as u64 + sorted[count / 2] as u64
        };
        let p90 = if count == 0 {
            0
        } else {
            let idx = ((count as u64) * 9 / 10) as usize;
            let last = count - 1;
            sorted[if idx < last { idx } else { last }]
        };
        let shots_fired = n as u32;
        SessionCounts {
            session_id,
            weapon_id,
            start_time_ms,
            end_time_ms,
            duration_seconds: #[verifier::truncate] (((end_time_ms - start_time_ms) / 1000) as u32),
            shots_fired,
            hits,
            misses: shots_fired - hits,
            headshots,
            kills,
            moving_shots,
            aimed_shots,
            reaction_times_ms: sorted,
            median_reaction_time_x2: median_x2,
            p90_reaction_time_ms: p90,
        }
    }
}

} // verus!
