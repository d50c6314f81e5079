use nosedive::challenge::{
    check_challenge, standing, tally, AnswerCount, ChallengeRefusal, PollAnswer, Standing,
};
use nosedive::commands::{route, route_is_defined, Route};

fn answer(id: u64, text: Option<&str>) -> PollAnswer {
    PollAnswer { id, text: text.map(|t| t.to_string()) }
}

fn entries(pairs: &[(&str, u64)]) -> Vec<(String, u64)> {
    pairs.iter().map(|(s, v)| (s.to_string(), *v)).collect()
}

#[test]
fn challenge_refusals() {
    assert_eq!(check_challenge(1, 1, true), Err(ChallengeRefusal::SelfChallenge));
    assert_eq!(check_challenge(1, 2, true), Err(ChallengeRefusal::BotOpponent));
    assert_eq!(check_challenge(1, 2, false), Ok(()));
}

#[test]
fn tally_follows_counts() {
    let answers = vec![answer(1, Some("alice")), answer(2, Some("bob"))];
    let counts = vec![AnswerCount { id: 2, votes: 5 }, AnswerCount { id: 1, votes: 3 }];
    assert_eq!(tally(&answers, &counts), entries(&[("bob", 5), ("alice", 3)]));
}

#[test]
fn tally_skips_missing_and_textless_answers() {
    let answers = vec![answer(1, None), answer(1, Some("shadowed")), answer(2, Some("bob"))];
    let counts = vec![
        AnswerCount { id: 1, votes: 4 },
        AnswerCount { id: 9, votes: 2 },
        AnswerCount { id: 2, votes: 1 },
    ];
    assert_eq!(tally(&answers, &counts), entries(&[("bob", 1)]));
    assert_eq!(tally(&answers, &vec![]), entries(&[]));
}

#[test]
fn standing_picks_last_most_and_first_least() {
    let results = entries(&[("a", 3), ("b", 5), ("c", 5), ("d", 1), ("e", 1)]);
    assert_eq!(standing(&results), Standing { winner: 2, loser: 3, tied: false });
}

#[test]
fn standing_of_equal_votes_is_a_tie() {
    let results = entries(&[("a", 2), ("b", 2)]);
    assert_eq!(standing(&results), Standing { winner: 1, loser: 0, tied: true });
    let single = entries(&[("a", 7)]);
    assert_eq!(standing(&single), Standing { winner: 0, loser: 0, tied: true });
}

#[test]
fn routing_commands() {
    let name = |s: &str| s.to_string();
    assert_eq!(route(&name("getelo"), None, 5, None), Route::GetElo);
    assert_eq!(route(&name("leaderboard"), None, 5, None), Route::Leaderboard);
    assert_eq!(route(&name("challenge"), Some(5), 5, None), Route::Challenge);
    assert_eq!(route(&name("challenge"), Some(6), 5, None), Route::WrongChannel);
    assert_eq!(route(&name("setchannel"), None, 5, Some(true)), Route::SetChannel);
    assert_eq!(route(&name("setchannel"), None, 5, Some(false)), Route::MissingPermission);
    assert_eq!(route(&name("give"), None, 5, None), Route::Give);
    assert_eq!(route(&name("coinflip"), None, 5, None), Route::Unknown);
}

#[test]
fn routing_needs_channel_and_permissions() {
    let name = |s: &str| s.to_string();
    assert!(!route_is_defined(&name("challenge"), None, Some(true)));
    assert!(!route_is_defined(&name("setchannel"), Some(1), None));
    assert!(route_is_defined(&name("getelo"), None, None));
}
