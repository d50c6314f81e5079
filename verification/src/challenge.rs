//! Challenges: one user pits themselves against another in a poll, and the
//! poll's tally decides the winner and the loser.

use vstd::prelude::*;

verus! {

/// Why a challenge is refused.
#[derive(Debug, Clone, Copy, PartialEq, Eq, Structural)]
pub enum ChallengeRefusal {
    /// A user challenged themselves.
    SelfChallenge,
    /// The opponent is a bot.
    BotOpponent,
}

/// The outcome of a challenge request.
pub open spec fn spec_check_challenge(challenger: u64, opponent: u64, opponent_is_bot: bool) -> Result<
    (),
    ChallengeRefusal,
> {
    if challenger == opponent {
        Err(ChallengeRefusal::SelfChallenge)
    } else if opponent_is_bot {
        Err(ChallengeRefusal::BotOpponent)
    } else {
        Ok(())
    }
}

/// Decides whether `challenger` may challenge `opponent`.
pub fn check_challenge(challenger: u64, opponent: u64, opponent_is_bot: bool) -> (r: Result<
    (),
    ChallengeRefusal,
>)
    ensures
        r == spec_check_challenge(challenger, opponent, opponent_is_bot),
        challenger == opponent ==> r == Err::<(), ChallengeRefusal>(ChallengeRefusal::SelfChallenge),
        r is Ok <==> challenger != opponent && !opponent_is_bot,
{
    if challenger == opponent {
        Err(ChallengeRefusal::SelfChallenge)
    } else if opponent_is_bot {
        Err(ChallengeRefusal::BotOpponent)
    } else {
        Ok(())
    }
}

/// Challenging oneself is always refused as such, whether or not one is a
/// bot; a challenge goes through exactly when the opponent is another user
/// who is not a bot; any other challenge of a bot is refused as such.
pub proof fn law_challenge_refusals(challenger: u64, opponent: u64, opponent_is_bot: bool)
    ensures
        challenger == opponent ==> spec_check_challenge(challenger, opponent, opponent_is_bot)
            == Err::<(), ChallengeRefusal>(ChallengeRefusal::SelfChallenge),
        challenger != opponent && opponent_is_bot ==> spec_check_challenge(
            challenger,
            opponent,
            opponent_is_bot,
        ) == Err::<(), ChallengeRefusal>(ChallengeRefusal::BotOpponent),
        spec_check_challenge(challenger, opponent, opponent_is_bot) is Ok <==> challenger
            != opponent && !opponent_is_bot,
{
}

/// One answer of a poll: its id and, where it has one, its text.
#[derive(Debug, Clone)]
pub struct PollAnswer {
    pub id: u64,
    pub text: Option<String>,
}

/// The number of votes cast for the answer with id `id`.
#[derive(Debug, Clone, Copy, PartialEq, Eq, Structural)]
pub struct AnswerCount {
    pub id: u64,
    pub votes: u64,
}

/// Index of the first answer at or after `i` whose id is `id`.
pub open spec fn spec_first_answer_from(answers: Seq<PollAnswer>, id: u64, i: int) -> Option<int>
    decreases answers.len() - i,
{
    if i < 0 || i >= answers.len() {
        None
    } else if answers[i].id == id {
        Some(i)
    } else {
        spec_first_answer_from(answers, id, i + 1)
    }
}

/// The entry that a vote count contributes to the tally: the text of the first
/// answer with the count's id, with the count's votes; nothing where there is
/// no such answer or it has no text.
pub open spec fn spec_tally_entry(answers: Seq<PollAnswer>, count: AnswerCount) -> Option<
    (Seq<char>, u64),
> {
    match spec_first_answer_from(answers, count.id, 0) {
        Some(i) => match answers[i].text {
            Some(t) => Some((t@, count.votes)),
            None => None,
        },
        None => None,
    }
}

/// The tally of a poll: one entry per vote count, in the order of the counts.
pub open spec fn spec_tally(answers: Seq<PollAnswer>, counts: Seq<AnswerCount>) -> Seq<
    (Seq<char>, u64),
>
    decreases counts.len(),
{
    if counts.len() == 0 {
        seq![]
    } else {
        let rest = spec_tally(answers, counts.drop_last());
        match spec_tally_entry(answers, counts.last()) {
            Some(e) => rest.push(e),
            None => rest,
        }
    }
}

/// `i` is the index of the first answer whose id is `id`.
pub open spec fn is_first_answer(answers: Seq<PollAnswer>, id: u64, i: int) -> bool {
    &&& 0 <= i < answers.len()
    &&& answers[i].id == id
    &&& forall|j: int| 0 <= j < i ==> answers[j].id != id
}

/// The first answer with the count's id exists and has a text.
pub open spec fn has_textual_answer(answers: Seq<PollAnswer>, count: AnswerCount) -> bool {
    exists|i: int| is_first_answer(answers, count.id, i) && answers[i].text is Some
}

/// The vote counts whose first answer with their id has a text.
pub open spec fn answered_counts(answers: Seq<PollAnswer>, counts: Seq<AnswerCount>) -> Seq<
    AnswerCount,
> {
    counts.filter(|c: AnswerCount| has_textual_answer(answers, c))
}

proof fn lemma_first_answer_from(answers: Seq<PollAnswer>, id: u64, s: int)
    requires
        0 <= s,
        forall|j: int| 0 <= j < s && j < answers.len() ==> answers[j].id != id,
    ensures
        spec_first_answer_from(answers, id, s) matches Some(i) ==> is_first_answer(answers, id, i),
        spec_first_answer_from(answers, id, s) is None ==> forall|j: int|
            0 <= j < answers.len() ==> answers[j].id != id,
    decreases answers.len() - s,
{
    if s < answers.len() && answers[s].id != id {
        lemma_first_answer_from(answers, id, s + 1);
    }
}

proof fn lemma_tally_entry(answers: Seq<PollAnswer>, count: AnswerCount)
    ensures
        spec_tally_entry(answers, count) is Some <==> has_textual_answer(answers, count),
        spec_tally_entry(answers, count) matches Some(e) ==> e.1 == count.votes,
        forall|i: int|
            #![trigger is_first_answer(answers, count.id, i)]
            is_first_answer(answers, count.id, i) ==> (spec_tally_entry(answers, count) matches Some(
                e,
            ) ==> (answers[i].text matches Some(t) && e.0 == t@)),
{
    lemma_first_answer_from(answers, count.id, 0);
    assert forall|i: int, k: int|
        is_first_answer(answers, count.id, i) && is_first_answer(answers, count.id, k) implies i
        == k by {
        if i < k {
            assert(answers[i].id == count.id);
        } else if k < i {
            assert(answers[k].id == count.id);
        }
    }
}

/// Every vote count whose id has a first matching answer with a text gives
/// exactly one entry of the tally, in the order of the counts and whatever its
/// number of votes (none included): that answer's text with the count's votes.
/// No other count gives an entry.
pub proof fn law_tally_keeps_every_answered_count(
    answers: Seq<PollAnswer>,
    counts: Seq<AnswerCount>,
)
    ensures
        ({
            let kept = answered_counts(answers, counts);
            let t = spec_tally(answers, counts);
            &&& t.len() == kept.len()
            &&& forall|k: int| 0 <= k < t.len() ==> #[trigger] t[k].1 == kept[k].votes
            &&& forall|k: int, i: int|
                0 <= k < t.len() && #[trigger] is_first_answer(answers, kept[k].id, i) ==> (
                answers[i].text matches Some(s) && t[k].0 == s@)
        }),
    decreases counts.len(),
{
    reveal(Seq::filter);
    if counts.len() > 0 {
        let rest = counts.drop_last();
        let last = counts.last();
        law_tally_keeps_every_answered_count(answers, rest);
        lemma_tally_entry(answers, last);
        assert(answered_counts(answers, counts) =~= (if has_textual_answer(answers, last) {
            answered_counts(answers, rest).push(last)
        } else {
            answered_counts(answers, rest)
        }));
    }
}

/// The tally as plain values.
pub open spec fn tally_view(results: Seq<(String, u64)>) -> Seq<(Seq<char>, u64)> {
    results.map_values(|e: (String, u64)| (e.0@, e.1))
}

/// Index of the first answer whose id is `id`.
fn find_answer(answers: &Vec<PollAnswer>, id: u64) -> (r: Option<usize>)
    ensures
        r is None <==> spec_first_answer_from(answers@, id, 0) is None,
        r matches Some(k) ==> spec_first_answer_from(answers@, id, 0) == Some(k as int) && k
            < answers@.len(),
{
    let mut i: usize = 0;
    while i < answers.len()
        invariant
            i <= answers@.len(),
            spec_first_answer_from(answers@, id, 0) == spec_first_answer_from(answers@, id, i as int),
        decreases answers.len() - i,
    {
        if answers[i].id == id {
            return Some(i);
        }
        i = i + 1;
    }
    None
}

/// Pairs each vote count with the text of its answer, in the order of the
/// counts, leaving out counts whose answer is missing or has no text.
pub fn tally(answers: &Vec<PollAnswer>, counts: &Vec<AnswerCount>) -> (results: Vec<(String, u64)>)
    ensures
        tally_view(results@) == spec_tally(answers@, counts@),
        results@.len() == answered_counts(answers@, counts@).len(),
        forall|k: int|
            0 <= k < results@.len() ==> #[trigger] results@[k].1 == answered_counts(
                answers@,
                counts@,
            )[k].votes,
{
    proof {
        law_tally_keeps_every_answered_count(answers@, counts@);
    }
    let mut results: Vec<(String, u64)> = Vec::new();
    let mut j: usize = 0;
    while j < counts.len()
        invariant
            j <= counts@.len(),
            tally_view(results@) == spec_tally(answers@, counts@.take(j as int)),
        decreases counts.len() - j,
    {
        let count = counts[j];
        assert(counts@.take(j + 1).drop_last() =~= counts@.take(j as int));
        assert(counts@.take(j + 1).last() == count);
        match find_answer(answers, count.id) {
            Some(k) => match &answers[k].text {
                Some(t) => {
                    let ghost before = results@;
                    results.push((t.clone(), count.votes));
                    assert(tally_view(results@) =~= tally_view(before).push((t@, count.votes)));
                },
                None => {},
            },
            None => {},
        }
        j = j + 1;
    }
    assert(counts@.take(counts@.len() as int) =~= counts@);
    assert(tally_view(results@).len() == results@.len());
    assert forall|k: int| 0 <= k < results@.len() implies #[trigger] results@[k].1
        == answered_counts(answers@, counts@)[k].votes by {
        assert(tally_view(results@)[k].1 == results@[k].1);
    }
    results
}

/// `w` is the last index whose votes are the most.
pub open spec fn is_last_most_voted(results: Seq<(String, u64)>, w: int) -> bool {
    &&& 0 <= w < results.len()
    &&& forall|j: int| 0 <= j < results.len() ==> results[j].1 <= results[w].1
    &&& forall|j: int| w < j < results.len() ==> results[j].1 < results[w].1
}

/// `l` is the first index whose votes are the fewest.
pub open spec fn is_first_least_voted(results: Seq<(String, u64)>, l: int) -> bool {
    &&& 0 <= l < results.len()
    &&& forall|j: int| 0 <= j < results.len() ==> results[l].1 <= results[j].1
    &&& forall|j: int| 0 <= j < l ==> results[l].1 < results[j].1
}

/// Who won and who lost a poll, as indices into its tally.
#[derive(Debug, Clone, Copy, PartialEq, Eq, Structural)]
pub struct Standing {
    /// The last entry with the most votes.
    pub winner: usize,
    /// The first entry with the fewest votes.
    pub loser: usize,
    /// Whether the winner has no more votes than the loser.
    pub tied: bool,
}

/// Picks the winner (the last entry with the most votes) and the loser (the
/// first entry with the fewest votes) of a tally; they are tied when their
/// votes are equal, which is when every entry has the same votes.
pub fn standing(results: &Vec<(String, u64)>) -> (s: Standing)
    requires
        results@.len() >= 1,
    ensures
        is_last_most_voted(results@, s.winner as int),
        is_first_least_voted(results@, s.loser as int),
        s.tied == (results@[s.winner as int].1 == results@[s.loser as int].1),
        s.tied <==> forall|i: int, j: int|
            0 <= i < results@.len() && 0 <= j < results@.len() ==> results@[i].1 == results@[j].1,
{
    let mut w: usize = 0;
    let mut l: usize = 0;
    let mut i: usize = 1;
    while i < results.len()
        invariant
            1 <= i <= results@.len(),
            w < i,
            l < i,
            forall|j: int| 0 <= j < i ==> results@[j].1 <= results@[w as int].1,
            forall|j: int| w < j < i ==> results@[j].1 < results@[w as int].1,
            forall|j: int| 0 <= j < i ==> results@[l as int].1 <= results@[j].1,
            forall|j: int| 0 <= j < l ==> results@[l as int].1 < results@[j].1,
        decreases results.len() - i,
    {
        if results[i].1 >= results[w].1 {
            w = i;
        }
        if results[i].1 < results[l].1 {
            l = i;
        }
        i = i + 1;
    }
    let tied = results[w].1 == results[l].1;
    Standing { winner: w, loser: l, tied }
}

} // verus!
