use vstd::prelude::*;

verus! {

/// The best run of a player with one variation.
#[derive(Debug, Clone, Copy, PartialEq, Eq, Structural)]
pub struct Score {
    pub id: Option<i64>,
    pub variation: i64,
    pub steam_id: i64,
    pub score: i32,
    pub progress: i32,
}

/// A score with its rank among the scores of its variation.
#[derive(Debug, Clone, Copy, PartialEq, Eq, Structural)]
pub struct RankedScore {
    pub rank: i64,
    pub score: Score,
}

/// What to do with a submitted score, given the stored score of the same
/// player with the same variation.
#[derive(Debug, Clone, Copy, PartialEq, Eq, Structural)]
pub enum Upsert {
    /// No score is stored yet: store the submitted one.
    Insert,
    /// The submitted score beats the stored one: overwrite its score and
    /// progress.
    Update,
    /// The stored score is at least as good: keep it.
    Keep,
}

/// Whether the run `a` beats the run `b`: a higher score, or the same score
/// with more progress.
pub open spec fn beats(a: Score, b: Score) -> bool {
    a.score > b.score || (a.score == b.score && a.progress > b.progress)
}

/// What to do with `value`, given the stored score `existing`.
pub open spec fn upsert_plan(value: Score, existing: Option<Score>) -> Upsert {
    match existing {
        None => Upsert::Insert,
        Some(h) => if beats(value, h) {
            Upsert::Update
        } else {
            Upsert::Keep
        },
    }
}

/// The stored score once `value` was submitted, given the stored score
/// `existing`.
pub open spec fn stored_after(value: Score, existing: Option<Score>) -> Score {
    match existing {
        None => value,
        Some(h) => if beats(value, h) {
            Score { score: value.score, progress: value.progress, ..h }
        } else {
            h
        },
    }
}

/// Whether a list of ranked scores holds a score of the player.
pub open spec fn has_player(s: Seq<RankedScore>, steam_id: i64) -> bool {
    exists|i: int| 0 <= i < s.len() && #[trigger] s[i].score.steam_id == steam_id
}

/// Whether `i` is the first position of a score of the player.
pub open spec fn is_first_of(s: Seq<RankedScore>, steam_id: i64, i: int) -> bool {
    &&& 0 <= i < s.len()
    &&& s[i].score.steam_id == steam_id
    &&& forall|j: int| 0 <= j < i ==> #[trigger] s[j].score.steam_id != steam_id
}

/// The rank of the first score of the player in the list.
pub open spec fn player_rank(s: Seq<RankedScore>, steam_id: i64) -> i64 {
    s[choose|i: int| is_first_of(s, steam_id, i)].rank
}

/// Whether a score of rank `rank` lies in the neighbourhood `range` of a
/// player of rank `user_rank`: `user_rank - rank` lies in the range.
pub open spec fn in_neighbourhood(user_rank: i64, rank: i64, range: std::ops::Range<i64>) -> bool {
    range.start <= user_rank - rank < range.end
}

/// The scores of the list, in their order, whose rank lies in the
/// neighbourhood `range` of a player of rank `user_rank`.
pub open spec fn neighbours(
    s: Seq<RankedScore>,
    user_rank: i64,
    range: std::ops::Range<i64>,
) -> Seq<Score>
    decreases s.len(),
{
    if s.len() == 0 {
        Seq::empty()
    } else {
        let rest = neighbours(s.drop_last(), user_rank, range);
        if in_neighbourhood(user_rank, s.last().rank, range) {
            rest.push(s.last().score)
        } else {
            rest
        }
    }
}

/// Whether each rank difference to `user_rank` fits in an `i64`.
pub open spec fn differences_fit(s: Seq<RankedScore>, user_rank: i64) -> bool {
    forall|i: int|
        0 <= i < s.len() ==> i64::MIN <= user_rank - #[trigger] s[i].rank <= i64::MAX
}

/// The first position of a score of a player is unique.
pub proof fn lemma_first_unique(s: Seq<RankedScore>, steam_id: i64, i: int, k: int)
    requires
        is_first_of(s, steam_id, i),
        is_first_of(s, steam_id, k),
    ensures
        i == k,
{
    if i < k {
        assert(s[i].score.steam_id != steam_id);
    } else if k < i {
        assert(s[k].score.steam_id != steam_id);
    }
}

impl Score {
    /// Whether this run beats `other`.
    pub fn beats(&self, other: &Score) -> (r: bool)
        ensures
            r == beats(*self, *other),
            r == (self.score > other.score || (self.score == other.score && self.progress
                > other.progress)),
    {
        self.score > other.score || (self.score == other.score && self.progress > other.progress)
    }

    /// What to do with this submitted score, given the stored score of the
    /// same player with the same variation, if there is one.
    pub fn upsert_plan(&self, existing: Option<Score>) -> (r: Upsert)
        ensures
            r == upsert_plan(*self, existing),
            existing is None ==> r == Upsert::Insert,
            existing matches Some(h) ==> (r == Upsert::Update <==> (self.score > h.score || (
            self.score == h.score && self.progress > h.progress))),
            existing matches Some(h) ==> (r == Upsert::Keep <==> (self.score < h.score || (
            self.score == h.score && self.progress <= h.progress))),
    {
        match existing {
            None => Upsert::Insert,
            Some(high_score) => if self.beats(&high_score) {
                Upsert::Update
            } else {
                Upsert::Keep
            },
        }
    }

    /// The scores of a ranked list that surround the player `steam_id`: those
    /// whose rank, subtracted from the rank of the player's first score, lies
    /// in `range`. They come in the order of the list.
    pub fn neighbourhood(
        scores: &Vec<RankedScore>,
        steam_id: i64,
        range: std::ops::Range<i64>,
    ) -> (r: Vec<Score>)
        requires
            has_player(scores@, steam_id),
            differences_fit(scores@, player_rank(scores@, steam_id)),
        ensures
            r@ == neighbours(scores@, player_rank(scores@, steam_id), range),
            forall|k: int|
                0 <= k < r@.len() ==> exists|i: int|
                    0 <= i < scores@.len() && scores@[i].score == #[trigger] r@[k]
                        && range.start <= player_rank(scores@, steam_id) - scores@[i].rank
                        < range.end,
            forall|i: int|
                0 <= i < scores@.len() && range.start <= player_rank(scores@, steam_id)
                    - #[trigger] scores@[i].rank < range.end ==> r@.contains(scores@[i].score),
    {
        let n = scores.len();
        let mut i: usize = 0;
        while i < n && scores[i].score.steam_id != steam_id
            invariant
                n == scores@.len(),
                i <= n,
                has_player(scores@, steam_id),
                forall|j: int| 0 <= j < i ==> #[trigger] scores@[j].score.steam_id != steam_id,
            decreases n - i,
        {
            i = i + 1;
        }
        proof {
            if i == n {
                let j = choose|j: int| 0 <= j < scores@.len() && #[trigger] scores@[j].score.steam_id == steam_id;
                assert(scores@[j].score.steam_id != steam_id);
            }
            assert(is_first_of(scores@, steam_id, i as int));
            let k = choose|k: int| is_first_of(scores@, steam_id, k);
            lemma_first_unique(scores@, steam_id, i as int, k);
        }
        let user_rank = scores[i].rank;
        let ghost s = scores@;
        let mut result: Vec<Score> = Vec::new();
        let mut j: usize = 0;
        while j < n
            invariant
                n == s.len(),
                s == scores@,
                j <= n,
                user_rank == player_rank(s, steam_id),
                differences_fit(s, user_rank),
                result@ == neighbours(s.take(j as int), user_rank, range),
            decreases n - j,
        {
            let entry = scores[j];
            assert(s.take(j + 1).drop_last() =~= s.take(j as int));
            assert(s.take(j + 1).last() == entry);
            let difference = user_rank - entry.rank;
            if range.start <= difference && difference < range.end {
                result.push(entry.score);
            }
            j = j + 1;
        }
        assert(s.take(n as int) =~= s);
        proof {
            lemma_neighbours_from_list(s, user_rank, range);
        }
        result
    }
}

/// The rules of a new high score, over all submitted and stored runs: a
/// first run is stored; a higher score, or the same score with more progress,
/// overwrites the stored run; a lower score, or the same score with no more
/// progress, leaves it.
pub proof fn lemma_high_score_rules(value: Score, h: Score)
    ensures
        upsert_plan(value, None) == Upsert::Insert,
        value.score > h.score ==> upsert_plan(value, Some(h)) == Upsert::Update,
        value.score < h.score ==> upsert_plan(value, Some(h)) == Upsert::Keep,
        value.score == h.score && value.progress > h.progress ==> upsert_plan(value, Some(h))
            == Upsert::Update,
        value.score == h.score && value.progress <= h.progress ==> upsert_plan(value, Some(h))
            == Upsert::Keep,
        upsert_plan(value, Some(h)) != Upsert::Insert,
{
}

/// Beating is a strict order on runs: no run beats itself, and beating is
/// transitive; of two runs with different score or progress, one beats the
/// other.
pub proof fn lemma_beats_strict_order(a: Score, b: Score, c: Score)
    ensures
        !beats(a, a),
        beats(a, b) && beats(b, c) ==> beats(a, c),
        beats(a, b) ==> !beats(b, a),
        (a.score != b.score || a.progress != b.progress) ==> beats(a, b) || beats(b, a),
{
}

/// Submitting a score never makes the stored score worse: the stored score
/// afterwards is beaten neither by the submitted score nor by the score
/// stored before, it keeps the player, the variation and (when a score was
/// stored) the id, and its score and progress are those of one of the two.
pub proof fn lemma_upsert_keeps_best(value: Score, existing: Option<Score>)
    ensures
        !beats(value, stored_after(value, existing)),
        existing matches Some(h) ==> !beats(h, stored_after(value, existing)),
        existing matches Some(h) ==> stored_after(value, existing).id == h.id
            && stored_after(value, existing).steam_id == h.steam_id
            && stored_after(value, existing).variation == h.variation,
        ({
            let s = stored_after(value, existing);
            (s.score == value.score && s.progress == value.progress) || (existing matches Some(h)
                && s.score == h.score && s.progress == h.progress)
        }),
        upsert_plan(value, existing) == Upsert::Keep <==> (existing matches Some(h)
            && stored_after(value, existing) == h),
{
}

/// Submitting the same score a second time changes nothing: the plan for it
/// is to keep the stored score.
pub proof fn lemma_upsert_idempotent(value: Score, existing: Option<Score>)
    ensures
        upsert_plan(value, Some(stored_after(value, existing))) == Upsert::Keep,
{
}

/// Exactly the scores whose rank is in the neighbourhood are neighbours:
/// every neighbour is the score of an entry of the list whose signed rank
/// difference `user_rank - rank` lies in `range`, and the score of every such
/// entry is among the neighbours. In particular a player whose range holds 0
/// finds each of their own scores of that rank among their neighbours, and a
/// range that starts above 0 holds no score ranked after the player.
pub proof fn lemma_neighbours_from_list(
    s: Seq<RankedScore>,
    user_rank: i64,
    range: std::ops::Range<i64>,
)
    ensures
        forall|k: int|
            0 <= k < neighbours(s, user_rank, range).len() ==> exists|i: int|
                0 <= i < s.len() && s[i].score == #[trigger] neighbours(s, user_rank, range)[k]
                    && range.start <= user_rank - s[i].rank < range.end,
        forall|i: int|
            0 <= i < s.len() && range.start <= user_rank - #[trigger] s[i].rank < range.end
                ==> neighbours(s, user_rank, range).contains(s[i].score),
        range.start <= 0 < range.end ==> forall|i: int|
            0 <= i < s.len() && #[trigger] s[i].rank == user_rank ==> neighbours(
                s,
                user_rank,
                range,
            ).contains(s[i].score),
        0 < range.start ==> forall|k: int|
            0 <= k < neighbours(s, user_rank, range).len() ==> exists|i: int|
                0 <= i < s.len() && s[i].score == #[trigger] neighbours(s, user_rank, range)[k]
                    && s[i].rank < user_rank,
    decreases s.len(),
{
    if s.len() > 0 {
        let p = s.drop_last();
        lemma_neighbours_from_list(p, user_rank, range);
        let rest = neighbours(p, user_rank, range);
        let all = neighbours(s, user_rank, range);
        assert forall|k: int| 0 <= k < all.len() implies exists|i: int|
            0 <= i < s.len() && s[i].score == #[trigger] all[k] && range.start <= user_rank
                - s[i].rank < range.end by {
            if k < rest.len() {
                assert(all[k] == rest[k]);
                let i = choose|i: int|
                    0 <= i < p.len() && p[i].score == #[trigger] rest[k] && range.start
                        <= user_rank - p[i].rank < range.end;
                assert(s[i] == p[i]);
            } else {
                assert(s[s.len() - 1].score == all[k]);
            }
        }
        assert forall|i: int|
            0 <= i < s.len() && range.start <= user_rank - #[trigger] s[i].rank
                < range.end implies all.contains(s[i].score) by {
            if i < s.len() - 1 {
                assert(p[i] == s[i]);
                let k = choose|k: int| 0 <= k < rest.len() && rest[k] == s[i].score;
                assert(all[k] == rest[k]);
            } else {
                assert(all[all.len() - 1] == s[i].score);
            }
        }
    }
}

/// Whether the range holds the integer `d`.
pub open spec fn range_holds(r: std::ops::Range<i64>, d: int) -> bool {
    r.start <= d < r.end
}

/// Widening the range never loses a neighbour: when every rank difference in
/// `r1` is also in `r2`, each score occurs among the neighbours for `r2` at
/// least as often as among those for `r1`.
pub proof fn lemma_wider_range_more_neighbours(
    s: Seq<RankedScore>,
    user_rank: i64,
    r1: std::ops::Range<i64>,
    r2: std::ops::Range<i64>,
)
    requires
        forall|d: int| #[trigger] range_holds(r1, d) ==> range_holds(r2, d),
    ensures
        neighbours(s, user_rank, r1).to_multiset().subset_of(
            neighbours(s, user_rank, r2).to_multiset(),
        ),
    decreases s.len(),
{
    broadcast use vstd::seq_lib::group_to_multiset_ensures;

    if s.len() == 0 {
        assert(neighbours(s, user_rank, r1) =~= Seq::<Score>::empty());
        assert(neighbours(s, user_rank, r1).to_multiset() =~= vstd::multiset::Multiset::<Score>::empty());
    } else {
        let p = s.drop_last();
        lemma_wider_range_more_neighbours(p, user_rank, r1, r2);
        let a = neighbours(p, user_rank, r1);
        let b = neighbours(p, user_rank, r2);
        let d = user_rank - s.last().rank;
        if r1.start <= d < r1.end {
            assert(range_holds(r1, d as int));
            assert(a.push(s.last().score).to_multiset() =~= a.to_multiset().insert(s.last().score));
            assert(b.push(s.last().score).to_multiset() =~= b.to_multiset().insert(s.last().score));
        } else if r2.start <= d < r2.end {
            assert(b.push(s.last().score).to_multiset() =~= b.to_multiset().insert(s.last().score));
        }
    }
}

} // verus!
