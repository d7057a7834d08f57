//! The order of the leaderboard: most points first, and among equals the order of arrival.
use crate::wire::{Standing, StandingView, standing_views};
use vstd::prelude::*;

verus! {

/// The standings of those who have exactly `points`, in the order in which they stand in
/// `standings`.
pub open spec fn tied(standings: Seq<StandingView>, points: u64) -> Seq<StandingView>
    decreases standings.len(),
{
    if standings.len() == 0 {
        Seq::empty()
    } else if standings[0].points == points {
        seq![standings[0]] + tied(standings.drop_first(), points)
    } else {
        tied(standings.drop_first(), points)
    }
}

/// Whether no one stands behind someone with fewer points.
pub open spec fn descending(standings: Seq<StandingView>) -> bool {
    forall|i: int, j: int|
        0 <= i < j < standings.len() ==> (#[trigger] standings[i]).points >= (
        #[trigger] standings[j]).points
}

/// Whether `ranked` holds the standings in the order of the leaderboard: most points first, and
/// those with the same points in the order in which they came.
pub open spec fn is_ranking(standings: Seq<StandingView>, ranked: Seq<StandingView>) -> bool {
    &&& descending(ranked)
    &&& forall|points: u64| #[trigger] tied(ranked, points) == tied(standings, points)
}

/// The standings in the order of the leaderboard.
pub open spec fn ranking(standings: Seq<StandingView>) -> Seq<StandingView> {
    choose|ranked: Seq<StandingView>| is_ranking(standings, ranked)
}

/// Someone who stands in `standings` stands among those with the same points.
proof fn lemma_tied_not_empty(standings: Seq<StandingView>, i: int)
    requires
        0 <= i < standings.len(),
    ensures
        tied(standings, standings[i].points).len() > 0,
    decreases standings.len(),
{
    if i > 0 {
        lemma_tied_not_empty(standings.drop_first(), i - 1);
        assert(standings.drop_first()[i - 1] == standings[i]);
    }
}

/// Those who are tied stand in `standings` and have the points in question.
proof fn lemma_tied_member(standings: Seq<StandingView>, points: u64)
    ensures
        forall|k: int|
            #![trigger tied(standings, points)[k]]
            0 <= k < tied(standings, points).len() ==> standings.contains(
                tied(standings, points)[k],
            ) && tied(standings, points)[k].points == points,
    decreases standings.len(),
{
    if standings.len() > 0 {
        let rest = standings.drop_first();
        lemma_tied_member(rest, points);
        assert forall|k: int|
            #![trigger tied(standings, points)[k]]
            0 <= k < tied(standings, points).len() implies standings.contains(
            tied(standings, points)[k],
        ) && tied(standings, points)[k].points == points by {
            let offset: int = if standings[0].points == points { 1 } else { 0 };
            if k < offset {
                assert(standings[0] == tied(standings, points)[k]);
            } else {
                assert(tied(standings, points)[k] == tied(rest, points)[k - offset]);
                let m = choose|m: int| 0 <= m < rest.len() && rest[m] == tied(rest, points)[k - offset];
                assert(standings[m + 1] == rest[m]);
            }
        }
    }
}

/// One who comes last comes last among those with the same points.
proof fn lemma_tied_push(standings: Seq<StandingView>, last: StandingView, points: u64)
    ensures
        tied(standings.push(last), points) == if last.points == points {
            tied(standings, points).push(last)
        } else {
            tied(standings, points)
        },
    decreases standings.len(),
{
    let all = standings.push(last);
    if standings.len() == 0 {
        assert(all.drop_first() =~= Seq::<StandingView>::empty());
        assert(tied(all.drop_first(), points) =~= Seq::<StandingView>::empty());
        assert(tied(all, points) =~= if last.points == points {
            tied(standings, points).push(last)
        } else {
            tied(standings, points)
        });
    } else {
        let rest = standings.drop_first();
        lemma_tied_push(rest, last, points);
        assert(all.drop_first() =~= rest.push(last));
        assert(tied(all, points) =~= if last.points == points {
            tied(standings, points).push(last)
        } else {
            tied(standings, points)
        });
    }
}

/// One who is put behind all who have as many points, and before all who have fewer, comes last
/// among those with the same points.
proof fn lemma_tied_insert(ranked: Seq<StandingView>, at: int, new: StandingView, points: u64)
    requires
        0 <= at <= ranked.len(),
        forall|i: int| at <= i < ranked.len() ==> (#[trigger] ranked[i]).points < new.points,
    ensures
        tied(ranked.insert(at, new), points) == if new.points == points {
            tied(ranked, points).push(new)
        } else {
            tied(ranked, points)
        },
    decreases ranked.len(),
{
    let all = ranked.insert(at, new);
    if at == 0 {
        assert(all.drop_first() =~= ranked);
        lemma_tied_member(ranked, new.points);
        if tied(ranked, new.points).len() > 0 {
            let witness = tied(ranked, new.points)[0];
            assert(ranked.contains(witness));
            let i = choose|i: int| 0 <= i < ranked.len() && ranked[i] == witness;
            assert(ranked[i].points < new.points);
        }
        assert(tied(all, points) =~= if new.points == points {
            tied(ranked, points).push(new)
        } else {
            tied(ranked, points)
        });
    } else {
        let rest = ranked.drop_first();
        assert forall|i: int| at - 1 <= i < rest.len() implies (#[trigger] rest[i]).points
            < new.points by {
            assert(rest[i] == ranked[i + 1]);
        }
        lemma_tied_insert(rest, at - 1, new, points);
        assert(all.drop_first() =~= rest.insert(at - 1, new));
        assert(tied(all, points) =~= if new.points == points {
            tied(ranked, points).push(new)
        } else {
            tied(ranked, points)
        });
    }
}

/// Putting one more into a ranking, behind all who have as many points, makes the ranking of those
/// who came so far and the new one after them.
proof fn lemma_rank_insert(
    standings: Seq<StandingView>,
    ranked: Seq<StandingView>,
    at: int,
    new: StandingView,
)
    requires
        is_ranking(standings, ranked),
        0 <= at <= ranked.len(),
        forall|i: int| 0 <= i < at ==> (#[trigger] ranked[i]).points >= new.points,
        forall|i: int| at <= i < ranked.len() ==> (#[trigger] ranked[i]).points < new.points,
    ensures
        is_ranking(standings.push(new), ranked.insert(at, new)),
{
    let all = ranked.insert(at, new);
    assert forall|i: int, j: int| 0 <= i < j < all.len() implies (#[trigger] all[i]).points >= (
    #[trigger] all[j]).points by {
        let a = if i < at { ranked[i] } else if i == at { new } else { ranked[i - 1] };
        let b = if j < at { ranked[j] } else if j == at { new } else { ranked[j - 1] };
        assert(all[i] == a && all[j] == b);
    }
    assert forall|points: u64| #[trigger] tied(all, points) == tied(standings.push(new), points) by {
        lemma_tied_insert(ranked, at, new, points);
        lemma_tied_push(standings, new, points);
        assert(tied(ranked, points) == tied(standings, points));
    }
}

/// There is a place in a ranking behind all who have at least `points` and before all who have
/// fewer.
proof fn lemma_place(ranked: Seq<StandingView>, points: u64) -> (at: int)
    requires
        descending(ranked),
    ensures
        0 <= at <= ranked.len(),
        forall|i: int| 0 <= i < at ==> (#[trigger] ranked[i]).points >= points,
        forall|i: int| at <= i < ranked.len() ==> (#[trigger] ranked[i]).points < points,
    decreases ranked.len(),
{
    if ranked.len() == 0 {
        0
    } else if ranked.last().points >= points {
        ranked.len() as int
    } else {
        let front = ranked.drop_last();
        let at = lemma_place(front, points);
        assert forall|i: int| 0 <= i < at implies (#[trigger] ranked[i]).points >= points by {
            assert(front[i] == ranked[i]);
        }
        assert forall|i: int| at <= i < ranked.len() implies (#[trigger] ranked[i]).points
            < points by {
            if i < front.len() {
                assert(front[i] == ranked[i]);
            }
        }
        at
    }
}

/// Every list of standings has a ranking.
proof fn lemma_ranking_exists(standings: Seq<StandingView>)
    ensures
        is_ranking(standings, ranking(standings)),
    decreases standings.len(),
{
    if standings.len() == 0 {
        assert(is_ranking(standings, standings));
    } else {
        let front = standings.drop_last();
        lemma_ranking_exists(front);
        let ranked = ranking(front);
        let at = lemma_place(ranked, standings.last().points);
        lemma_rank_insert(front, ranked, at, standings.last());
        assert(front.push(standings.last()) =~= standings);
        assert(is_ranking(standings, ranked.insert(at, standings.last())));
    }
}

/// A list of standings has one ranking only.
proof fn lemma_ranking_unique(
    standings: Seq<StandingView>,
    one: Seq<StandingView>,
    other: Seq<StandingView>,
)
    requires
        is_ranking(standings, one),
        is_ranking(standings, other),
    ensures
        one == other,
{
    assert forall|points: u64| #[trigger] tied(one, points) == tied(other, points) by {
        assert(tied(one, points) == tied(standings, points));
        assert(tied(other, points) == tied(standings, points));
    }
    lemma_same_ties(one, other);
}

/// Two lists in descending order are equal where those with the same points are.
proof fn lemma_same_ties(one: Seq<StandingView>, other: Seq<StandingView>)
    requires
        descending(one),
        descending(other),
        forall|points: u64| #[trigger] tied(one, points) == tied(other, points),
    ensures
        one == other,
    decreases one.len(),
{
    if one.len() == 0 {
        if other.len() > 0 {
            lemma_tied_not_empty(other, 0);
            assert(tied(one, other[0].points) == tied(other, other[0].points));
        }
        assert(one =~= other);
    } else {
        lemma_tied_not_empty(one, 0);
        assert(tied(one, one[0].points) == tied(other, one[0].points));
        lemma_tied_member(other, one[0].points);
        assert(other.contains(tied(other, one[0].points)[0]));
        let i = choose|i: int|
            0 <= i < other.len() && other[i] == tied(other, one[0].points)[0];
        assert(other[0].points >= other[i].points);
        lemma_tied_not_empty(other, 0);
        assert(tied(one, other[0].points) == tied(other, other[0].points));
        lemma_tied_member(one, other[0].points);
        assert(one.contains(tied(one, other[0].points)[0]));
        let j = choose|j: int| 0 <= j < one.len() && one[j] == tied(one, other[0].points)[0];
        assert(one[0].points >= one[j].points);
        assert(one[0].points == other[0].points);
        assert(tied(one, one[0].points)[0] == one[0]);
        assert(tied(other, one[0].points)[0] == other[0]);
        let one_rest = one.drop_first();
        let other_rest = other.drop_first();
        assert forall|points: u64| #[trigger] tied(one_rest, points) == tied(other_rest, points) by {
            assert(tied(one, points) == tied(other, points));
            if points == one[0].points {
                assert(tied(one_rest, points) =~= tied(one, points).drop_first());
                assert(tied(other_rest, points) =~= tied(other, points).drop_first());
            }
        }
        assert forall|i: int, j: int| 0 <= i < j < one_rest.len() implies (
        #[trigger] one_rest[i]).points >= (#[trigger] one_rest[j]).points by {
            assert(one_rest[i] == one[i + 1] && one_rest[j] == one[j + 1]);
        }
        assert forall|i: int, j: int| 0 <= i < j < other_rest.len() implies (
        #[trigger] other_rest[i]).points >= (#[trigger] other_rest[j]).points by {
            assert(other_rest[i] == other[i + 1] && other_rest[j] == other[j + 1]);
        }
        lemma_same_ties(one_rest, other_rest);
        assert(one =~= seq![one[0]] + one_rest);
        assert(other =~= seq![other[0]] + other_rest);
    }
}

/// How often someone stands in a list is how often they stand among those with their points.
proof fn lemma_tied_count(standings: Seq<StandingView>, who: StandingView)
    ensures
        standings.to_multiset().count(who) == tied(standings, who.points).to_multiset().count(who),
    decreases standings.len(),
{
    broadcast use vstd::seq_lib::group_to_multiset_ensures;

    if standings.len() > 0 {
        let rest = standings.drop_first();
        lemma_tied_count(rest, who);
        assert(standings =~= seq![standings[0]] + rest);
        vstd::seq_lib::lemma_multiset_commutative(seq![standings[0]], rest);
        if standings[0].points == who.points {
            vstd::seq_lib::lemma_multiset_commutative(
                seq![standings[0]],
                tied(rest, who.points),
            );
        } else {
            assert(seq![standings[0]] =~= Seq::empty().push(standings[0]));
            assert(seq![standings[0]].to_multiset().count(who) == 0);
        }
    }
}

/// The leaderboard has its standings in descending order of points.
pub proof fn law_ranking_descends(standings: Seq<StandingView>)
    ensures
        descending(ranking(standings)),
{
    lemma_ranking_exists(standings);
}

/// Those with the same points stand on the leaderboard in the order in which they came.
pub proof fn law_ties_keep_their_order(standings: Seq<StandingView>, points: u64)
    ensures
        tied(ranking(standings), points) == tied(standings, points),
{
    lemma_ranking_exists(standings);
}

/// No one is left out of the leaderboard, added to it or listed more often than they came.
pub proof fn law_ranking_keeps_everyone(standings: Seq<StandingView>)
    ensures
        ranking(standings).to_multiset() =~= standings.to_multiset(),
{
    lemma_ranking_exists(standings);
    assert forall|who: StandingView|
        ranking(standings).to_multiset().count(who) == standings.to_multiset().count(who) by {
        lemma_tied_count(standings, who);
        lemma_tied_count(ranking(standings), who);
        assert(tied(ranking(standings), who.points) == tied(standings, who.points));
    }
}

/// There is one leaderboard only: whatever has the standings in its order is the leaderboard.
pub proof fn law_ranking_is_determined(standings: Seq<StandingView>, ranked: Seq<StandingView>)
    requires
        is_ranking(standings, ranked),
    ensures
        ranked == ranking(standings),
{
    lemma_ranking_exists(standings);
    lemma_ranking_unique(standings, ranked, ranking(standings));
}

/// Ranking a leaderboard once more changes nothing.
pub proof fn law_ranking_is_stable(standings: Seq<StandingView>)
    ensures
        ranking(ranking(standings)) == ranking(standings),
{
    lemma_ranking_exists(standings);
    lemma_ranking_exists(ranking(standings));
    lemma_ranking_unique(ranking(standings), ranking(ranking(standings)), ranking(standings));
}

/// Puts standings into the order of the leaderboard.
pub fn rank(standings: &Vec<Standing>) -> (ranked: Vec<Standing>)
    ensures
        standing_views(ranked@) == ranking(standing_views(standings@)),
{
    let ghost came = standing_views(standings@);
    let mut ranked: Vec<Standing> = Vec::new();
    proof {
        assert(standing_views(ranked@) =~= Seq::<StandingView>::empty());
        assert(came.take(0) =~= Seq::<StandingView>::empty());
        assert(is_ranking(came.take(0), standing_views(ranked@)));
    }
    for i in 0..standings.len()
        invariant
            came == standing_views(standings@),
            is_ranking(came.take(i as int), standing_views(ranked@)),
    {
        let ghost before = standing_views(ranked@);
        let new = standings[i].clone();
        let mut at: usize = 0;
        while at < ranked.len() && ranked[at].points >= new.points
            invariant
                at <= ranked.len(),
                before == standing_views(ranked@),
                forall|k: int| 0 <= k < at ==> (#[trigger] before[k]).points >= new.points,
            decreases ranked.len() - at,
        {
            assert(before[at as int].points >= new.points);
            at += 1;
        }
        proof {
            assert forall|k: int| at <= k < before.len() implies (#[trigger] before[k]).points
                < new.points by {
                assert(before[at as int].points < new.points);
                if k > at {
                    assert(before[at as int].points >= before[k].points);
                }
            }
            lemma_rank_insert(came.take(i as int), before, at as int, new@);
            assert(came.take(i as int).push(new@) =~= came.take(i + 1));
        }
        ranked.insert(at, new);
        assert(standing_views(ranked@) =~= before.insert(at as int, new@));
    }
    proof {
        assert(came.take(standings.len() as int) =~= came);
        lemma_ranking_exists(came);
        lemma_ranking_unique(came, standing_views(ranked@), ranking(came));
    }
    ranked
}

/// Those with the same points, picked out of a list.
proof fn lemma_tied_is_filter(standings: Seq<StandingView>, points: u64)
    ensures
        tied(standings, points) == standings.filter(|s: StandingView| s.points == points),
    decreases standings.len(),
{
    reveal(Seq::filter);
    if standings.len() > 0 {
        lemma_tied_is_filter(standings.drop_last(), points);
        lemma_tied_push(standings.drop_last(), standings.last(), points);
        assert(standings.drop_last().push(standings.last()) =~= standings);
    }
}

/// The leaderboard has as many standings as came; no one stands behind someone with fewer points;
/// and whoever has the same points stands in the order in which they came.
pub proof fn law_leaderboard_order(standings: Seq<StandingView>, points: u64)
    ensures
        ranking(standings).len() == standings.len(),
        forall|i: int, j: int|
            0 <= i < j < standings.len() ==> (#[trigger] ranking(standings)[i]).points >= (
            #[trigger] ranking(standings)[j]).points,
        ranking(standings).filter(|s: StandingView| s.points == points) == standings.filter(
            |s: StandingView| s.points == points,
        ),
{
    broadcast use vstd::seq_lib::group_to_multiset_ensures;

    lemma_ranking_exists(standings);
    law_ranking_keeps_everyone(standings);
    assert(ranking(standings).to_multiset().len() == standings.to_multiset().len());
    lemma_tied_is_filter(standings, points);
    lemma_tied_is_filter(ranking(standings), points);
    assert(tied(ranking(standings), points) == tied(standings, points));
}

} // verus!
