//! The game's running state: the score, the movement speed, and the rank
//! label derived from the score through a threshold table.

use crate::config::{INITIAL_SPEED, SPEED_PER_STICK};
use vstd::prelude::*;

verus! {

/// The running score: the number of sticks collected so far.
pub struct Score(pub i32);

impl Score {
    /// The score a fresh game starts with.
    pub fn new() -> (s: Score)
        ensures
            s.0 == 0,
    {
        Score(0)
    }
}

/// The player's movement speed, in screen units per second. It starts at
/// `INITIAL_SPEED` and grows by `SPEED_PER_STICK` with each collected stick,
/// so it is always a whole number of screen units per second.
pub struct Speed(pub u32);

impl Speed {
    /// The speed a fresh game starts with.
    pub fn new() -> (s: Speed)
        ensures
            s.0 == INITIAL_SPEED,
    {
        Speed(INITIAL_SPEED)
    }
}

/// One frame's reaction to the collision pass: when at least one collision
/// was seen this frame, the score grows by one and the speed by
/// `SPEED_PER_STICK`; otherwise both stay as they were. Several collisions
/// within one frame count once.
pub fn update_score_and_speed(score: &mut Score, speed: &mut Speed, any_collision: bool)
    requires
        old(score).0 < i32::MAX,
        old(speed).0 + SPEED_PER_STICK <= u32::MAX,
    ensures
        any_collision ==> final(score).0 == old(score).0 + 1 && final(speed).0 == old(speed).0
            + SPEED_PER_STICK,
        !any_collision ==> final(score).0 == old(score).0 && final(speed).0 == old(speed).0,
{
    if any_collision {
        score.0 = score.0 + 1;
        speed.0 = speed.0 + SPEED_PER_STICK;
    }
}

/// The rank display: a table from minimum score to label, and the label
/// currently shown. The label is recomputed from the score every frame.
pub struct Rank {
    pub thresholds: Vec<(i32, String)>,
    pub current: String,
}

/// The label a threshold table yields for a score: the label of the highest
/// threshold the score reaches, or "Weak" when it reaches none. The table is
/// read in its own order, ascending thresholds, so the last entry at or
/// under the score is the highest such.
pub open spec fn rank_for(t: Seq<(i32, String)>, score: int) -> Seq<char>
    decreases t.len(),
{
    if t.len() == 0 {
        "Weak"@
    } else if t.last().0 <= score {
        t.last().1@
    } else {
        rank_for(t.drop_last(), score)
    }
}

impl Rank {
    /// The table's thresholds ascend strictly, so each score reaches a
    /// unique highest one.
    pub open spec fn wf(&self) -> bool {
        forall|k1: int, k2: int|
            0 <= k1 < k2 < self.thresholds@.len() ==> self.thresholds@[k1].0
                < self.thresholds@[k2].0
    }

    /// The table a fresh game starts with: "Weak" from a score of one,
    /// "Decent" from five, "Ok" from ten; the shown label starts as "Weak".
    pub fn new() -> (r: Rank)
        ensures
            r.wf(),
            is_standard_table(r.thresholds@),
            r.current@ == "Weak"@,
    {
        let mut thresholds: Vec<(i32, String)> = Vec::new();
        thresholds.push((1, String::from_str("Weak")));
        thresholds.push((5, String::from_str("Decent")));
        thresholds.push((10, String::from_str("Ok")));
        Rank { thresholds, current: String::from_str("Weak") }
    }
}

/// The threshold table the game is configured with.
pub open spec fn is_standard_table(t: Seq<(i32, String)>) -> bool {
    t.len() == 3 && t[0].0 == 1 && t[0].1@ == "Weak"@ && t[1].0 == 5 && t[1].1@ == "Decent"@
        && t[2].0 == 10 && t[2].1@ == "Ok"@
}

/// The label the standard table yields, written out by score.
pub open spec fn rank_label(score: int) -> Seq<char> {
    if score >= 10 {
        "Ok"@
    } else if score >= 5 {
        "Decent"@
    } else {
        "Weak"@
    }
}

/// The rank shown matches the highest threshold not exceeding the score:
/// under the standard table, every score below five ranks "Weak", every
/// score from five up to nine ranks "Decent", and every score from ten up
/// ranks "Ok".
pub proof fn lemma_rank_matches_thresholds(t: Seq<(i32, String)>, score: int)
    requires
        is_standard_table(t),
    ensures
        rank_for(t, score) == rank_label(score),
{
    reveal_with_fuel(rank_for, 4);
    let t2 = t.drop_last();
    let t1 = t2.drop_last();
    let t0 = t1.drop_last();
    assert(t2.len() == 2 && t2[0] == t[0] && t2[1] == t[1]);
    assert(t1.len() == 1 && t1[0] == t[0]);
    assert(t0.len() == 0);
}

/// One frame's rank update: the shown label becomes the one the table
/// yields for the score, and the table itself stays as it is.
pub fn update_rank(rank: &mut Rank, score: i32)
    requires
        old(rank).wf(),
    ensures
        final(rank).thresholds@ == old(rank).thresholds@,
        final(rank).wf(),
        final(rank).current@ == rank_for(old(rank).thresholds@, score as int),
{
    let mut best: Option<usize> = None;
    let mut i: usize = 0;
    while i < rank.thresholds.len()
        invariant
            i <= rank.thresholds@.len(),
            *rank == *old(rank),
            match best {
                Option::None => rank_for(rank.thresholds@.take(i as int), score as int)
                    == "Weak"@,
                Option::Some(j) => j < i && rank.thresholds@[j as int].0 <= score && rank_for(
                    rank.thresholds@.take(i as int),
                    score as int,
                ) == rank.thresholds@[j as int].1@,
            },
        decreases rank.thresholds@.len() - i,
    {
        proof {
            let prefix = rank.thresholds@.take(i + 1);
            assert(prefix.drop_last() =~= rank.thresholds@.take(i as int));
            assert(prefix.last() == rank.thresholds@[i as int]);
        }
        if rank.thresholds[i].0 <= score {
            best = Some(i);
        }
        i = i + 1;
    }
    proof {
        assert(rank.thresholds@.take(rank.thresholds@.len() as int) =~= rank.thresholds@);
    }
    let new_label: String = match best {
        Some(j) => {
            let label: &String = &rank.thresholds[j].1;
            label.clone()
        },
        None => String::from_str("Weak"),
    };
    rank.current = new_label;
}

} // verus!
