use caiu_perdeu::clock::Timestamp;
use caiu_perdeu::models::game::{
    Cycle, Fault, Game, GameError, Outcome, Phase, Publish, Validation, Verdict,
};
use caiu_perdeu::models::player::{Occupant, Player};

const ALICE: (u64, &str) = (1, "Alice");
const BOB: (u64, &str) = (2, "Bob");
const CAROL: (u64, &str) = (3, "Carol");

fn at(secs: i64) -> Timestamp {
    Timestamp::new(secs, 0).unwrap()
}

fn snapshot(entries: &[(u64, &str)]) -> Vec<Occupant> {
    entries.iter().map(|(id, name)| Occupant::new(*id, name.to_string())).collect()
}

fn ids(players: &[Player]) -> Vec<u64> {
    players.iter().map(|p| p.identity).collect()
}

fn alive_ids(game: &Game) -> Vec<u64> {
    game.get_alive_players().iter().map(|p| p.identity).collect()
}

/// A game that polls, started at second 100 with the given roster in the
/// voice channel 77.
fn polling(roster: &[(u64, &str)]) -> Game {
    let mut game = Game::new(1, 10, 20);
    assert_eq!(game.is_ctx_valid(Some(77), &snapshot(roster)), Validation::Ready);
    assert_eq!(game.start(Ok(snapshot(roster)), at(100)), Ok(()));
    assert_eq!(game.phase(), Phase::Polling);
    game
}

fn cycle(game: &mut Game, present: &[(u64, &str)], now: i64) -> Cycle {
    assert_eq!(game.phase(), Phase::Polling);
    game.poll(Ok(snapshot(present)), at(now)).unwrap()
}

fn is_sleep(verdict: &Verdict) -> bool {
    matches!(verdict, Verdict::Sleep)
}

#[test]
fn new_game_is_idle() {
    let game = Game::new(1, 10, 20);
    assert_eq!(game.phase(), Phase::Idle);
    assert_eq!(game.game_owner_id(), 1);
    assert_eq!(game.channel_id(), 10);
    assert_eq!(game.guild_id(), 20);
    assert!(game.original_players().is_empty());
    assert_eq!(game.v_channel(), None);
    assert_eq!(game.game_message(), None);
    assert_eq!(game.start_dt(), None);
    assert!(game.get_alive_players().is_empty());
    assert_eq!(game.edit_game_message(), Publish::Create);
}

#[test]
fn set_v_channel_records_a_resolved_channel() {
    let mut game = Game::new(1, 10, 20);
    game.set_v_channel(None);
    assert_eq!(game.v_channel(), None);
    game.set_v_channel(Some(77));
    assert_eq!(game.v_channel(), Some(77));
    game.set_v_channel(None);
    assert_eq!(game.v_channel(), Some(77));
    game.set_v_channel(Some(78));
    assert_eq!(game.v_channel(), Some(78));
    assert_eq!(game.phase(), Phase::Idle);
}

#[test]
fn context_with_two_occupants_is_ready() {
    let mut game = Game::new(1, 10, 20);
    assert_eq!(game.is_ctx_valid(Some(77), &snapshot(&[ALICE, BOB])), Validation::Ready);
    assert_eq!(game.phase(), Phase::AwaitingStart);
    assert_eq!(game.v_channel(), Some(77));
    assert!(game.original_players().is_empty());
    assert_eq!(game.start_dt(), None);
}

#[test]
fn context_without_voice_channel_is_invalid() {
    let mut game = Game::new(1, 10, 20);
    assert_eq!(game.is_ctx_valid(None, &Vec::new()), Validation::NotInChannel);
    assert_eq!(game.phase(), Phase::Idle);
    assert_eq!(game.v_channel(), None);
    assert_eq!(game.is_ctx_valid(None, &snapshot(&[ALICE, BOB])), Validation::NotInChannel);
    assert_eq!(game.phase(), Phase::Idle);
}

#[test]
fn single_occupant_is_too_few() {
    let mut game = Game::new(1, 10, 20);
    assert_eq!(game.is_ctx_valid(Some(77), &snapshot(&[ALICE])), Validation::TooFewOccupants);
    assert_eq!(game.phase(), Phase::Idle);
    assert_eq!(game.start_dt(), None);
    assert!(game.original_players().is_empty());
}

#[test]
fn context_with_nobody_or_one_listed_twice_is_too_few() {
    let mut game = Game::new(1, 10, 20);
    assert_eq!(game.is_ctx_valid(Some(77), &Vec::new()), Validation::TooFewOccupants);
    assert_eq!(game.is_ctx_valid(Some(77), &snapshot(&[ALICE, ALICE])), Validation::TooFewOccupants);
    assert_eq!(game.phase(), Phase::Idle);
    assert_eq!(game.is_ctx_valid(Some(77), &snapshot(&[ALICE, BOB])), Validation::Ready);
    assert_eq!(game.phase(), Phase::AwaitingStart);
}

#[test]
fn start_captures_the_roster() {
    let mut game = Game::new(1, 10, 20);
    game.is_ctx_valid(Some(77), &snapshot(&[ALICE, BOB]));
    assert_eq!(game.start(Ok(snapshot(&[CAROL, ALICE, BOB])), at(100)), Ok(()));
    assert_eq!(game.phase(), Phase::Polling);
    assert_eq!(game.start_dt(), Some(at(100)));
    assert_eq!(ids(game.original_players()), vec![3, 1, 2]);
    assert_eq!(alive_ids(&game), vec![3, 1, 2]);
    assert_eq!(game.game_message(), None);
    assert_eq!(game.v_channel(), Some(77));
}

#[test]
fn start_with_too_few_is_no_contest() {
    let mut game = Game::new(1, 10, 20);
    game.is_ctx_valid(Some(77), &snapshot(&[ALICE, BOB]));
    assert_eq!(game.start(Ok(snapshot(&[ALICE])), at(100)), Err(GameError::EmptyRosterError));
    assert_eq!(game.phase(), Phase::FinishedNoContest);
    assert!(game.original_players().is_empty());
    assert_eq!(game.start_dt(), None);
}

#[test]
fn start_without_snapshot_is_a_fetch_fault() {
    let mut game = Game::new(1, 10, 20);
    game.is_ctx_valid(Some(77), &snapshot(&[ALICE, BOB]));
    assert_eq!(game.start(Err(Fault {}), at(100)), Err(GameError::MembershipFetchFault));
    assert_eq!(game.phase(), Phase::AwaitingStart);
    assert_eq!(game.start_dt(), None);
    assert_eq!(game.start(Ok(snapshot(&[ALICE, BOB])), at(101)), Ok(()));
    assert_eq!(game.start_dt(), Some(at(101)));
}

#[test]
fn last_one_standing_wins() {
    let mut game = polling(&[ALICE, BOB, CAROL]);

    let first = cycle(&mut game, &[ALICE, CAROL], 110);
    assert_eq!(ids(&first.left), vec![2]);
    assert_eq!(first.left[0].eliminated_at, Some(at(110)));
    assert!(is_sleep(&first.verdict));
    assert_eq!(first.publish, Publish::Create);
    assert_eq!(game.phase(), Phase::Polling);
    assert_eq!(game.set_game_message(Ok(Some(500))), Ok(()));

    let second = cycle(&mut game, &[ALICE], 125);
    assert_eq!(ids(&second.left), vec![3]);
    assert_eq!(second.left[0].eliminated_at, Some(at(125)));
    assert_eq!(second.publish, Publish::Edit(500));
    match second.verdict {
        Verdict::Finished(Outcome::Winner { player, elapsed }) => {
            assert_eq!(player.identity, 1);
            assert_eq!(player.display_name, "Alice");
            assert_eq!(player.eliminated_at, Some(at(125)));
            assert_eq!(elapsed, 25);
        },
        other => panic!("expected a winner, got {:?}", other),
    }
    assert_eq!(game.phase(), Phase::FinishedWinner);
    assert_eq!(alive_ids(&game), vec![1]);
    assert_eq!(game.original_players()[0].eliminated_at, None);
    assert_eq!(game.original_players()[1].eliminated_at, Some(at(110)));
    assert_eq!(game.original_players()[2].eliminated_at, Some(at(125)));
}

#[test]
fn both_leaving_at_once_is_no_contest() {
    let mut game = polling(&[ALICE, BOB]);
    let only = cycle(&mut game, &[], 110);
    assert_eq!(ids(&only.left), vec![1, 2]);
    assert!(only.left.iter().all(|p| p.eliminated_at == Some(at(110))));
    assert!(matches!(only.verdict, Verdict::Finished(Outcome::NoContest)));
    assert_eq!(game.phase(), Phase::FinishedNoContest);
    assert!(game.get_alive_players().is_empty());
}

#[test]
fn fetch_fault_keeps_what_happened() {
    let mut game = polling(&[ALICE, BOB, CAROL]);
    let first = cycle(&mut game, &[ALICE, CAROL], 110);
    assert_eq!(ids(&first.left), vec![2]);

    let second = game.poll(Err(Fault {}), at(120));
    assert_eq!(second.unwrap_err(), GameError::MembershipFetchFault);
    assert_eq!(game.phase(), Phase::Polling);
    assert_eq!(game.original_players()[1].eliminated_at, Some(at(110)));
    assert_eq!(game.original_players()[0].eliminated_at, None);
    assert_eq!(game.original_players()[2].eliminated_at, None);
    assert_eq!(alive_ids(&game), vec![1, 3]);
    assert_eq!(game.start_dt(), Some(at(100)));
}

#[test]
fn cycle_ends_the_game_when_the_count_drops() {
    let mut game = polling(&[ALICE, BOB, CAROL]);
    let quiet = cycle(&mut game, &[ALICE, BOB, CAROL], 105);
    assert!(quiet.left.is_empty());
    assert!(is_sleep(&quiet.verdict));
    assert_eq!(game.phase(), Phase::Polling);
    assert_eq!(alive_ids(&game), vec![1, 2, 3]);

    let drop = cycle(&mut game, &[BOB], 110);
    assert_eq!(ids(&drop.left), vec![1, 3]);
    assert!(!is_sleep(&drop.verdict));
    assert_eq!(game.phase(), Phase::FinishedWinner);
    assert_eq!(alive_ids(&game), vec![2]);
}

#[test]
fn cycle_reports_simultaneous_leavers_in_roster_order() {
    let roster = [ALICE, BOB, CAROL, (4, "Dave"), (5, "Eve")];
    let mut game = polling(&roster);
    let report = cycle(&mut game, &[(5, "Eve"), CAROL], 110);
    assert_eq!(ids(&report.left), vec![1, 2, 4]);
    assert!(is_sleep(&report.verdict));
}

#[test]
fn player_present_throughout_wins() {
    let roster = [ALICE, BOB, CAROL, (4, "Dave")];
    let mut game = polling(&roster);
    let feed: [&[(u64, &str)]; 4] =
        [&[ALICE, BOB, CAROL, (4, "Dave")], &[CAROL, BOB, (4, "Dave")], &[BOB, CAROL], &[CAROL]];
    let mut last = None;
    for (k, present) in feed.iter().enumerate() {
        let report = cycle(&mut game, present, 110 + k as i64);
        assert_eq!(game.original_players()[2].eliminated_at, None);
        last = Some(report);
    }
    match last.unwrap().verdict {
        Verdict::Finished(Outcome::Winner { player, elapsed }) => {
            assert_eq!(player.identity, 3);
            assert_eq!(player.eliminated_at, Some(at(113)));
            assert_eq!(elapsed, 13);
        },
        other => panic!("expected a winner, got {:?}", other),
    }
    assert_eq!(game.phase(), Phase::FinishedWinner);
}

#[test]
fn late_joiner_cannot_win() {
    let mut game = polling(&[ALICE, BOB]);
    let report = cycle(&mut game, &[(9, "Zed")], 110);
    assert_eq!(ids(&report.left), vec![1, 2]);
    assert!(matches!(report.verdict, Verdict::Finished(Outcome::NoContest)));
    assert_eq!(ids(game.original_players()), vec![1, 2]);
}

#[test]
fn cycle_carries_the_status_board() {
    let mut game = polling(&[ALICE, BOB, CAROL]);
    let report = cycle(&mut game, &[ALICE, CAROL], 165);
    assert_eq!(report.status.title, "[0H 1M 5S] Game Status \u{1F3AE}\u{1F3AF}:");
    assert_eq!(report.status.description, "Current players:");
    assert_eq!(report.status.fields.len(), 3);
    assert_eq!(report.status.fields[0].name, "\u{2764}\u{FE0F} Alice");
    assert_eq!(report.status.fields[0].value, "* Still alive.");
    assert_eq!(report.status.fields[1].name, "\u{1F494} Bob");
    assert_eq!(report.status.fields[1].value, "* Has lost with 0H 1M 5S.");
    assert_eq!(report.status.fields[2].name, "\u{2764}\u{FE0F} Carol");
}

#[test]
fn check_players_moves_the_phase() {
    let mut game = polling(&[ALICE, BOB, CAROL]);
    let left = game.check_players(&snapshot(&[ALICE, BOB]), at(110));
    assert_eq!(ids(&left), vec![3]);
    assert_eq!(game.phase(), Phase::Polling);
    let left = game.check_players(&snapshot(&[]), at(120));
    assert_eq!(ids(&left), vec![1, 2]);
    assert_eq!(game.phase(), Phase::FinishedNoContest);
}

#[test]
fn embed_game_message_shows_the_time_played() {
    let game = polling(&[ALICE, BOB]);
    let board = game.get_embed_game_message(at(3_825));
    assert_eq!(board.title, "[1H 2M 5S] Game Status \u{1F3AE}\u{1F3AF}:");
    assert_eq!(board.fields.len(), 2);
    assert_eq!(board.fields[1].name, "\u{2764}\u{FE0F} Bob");
}

#[test]
fn verdict_of_a_polling_game_is_to_sleep() {
    let game = polling(&[ALICE, BOB]);
    assert!(is_sleep(&game.verdict(at(110))));
}

#[test]
fn status_message_is_created_once_and_then_edited() {
    let mut game = polling(&[ALICE, BOB, CAROL]);
    assert_eq!(game.edit_game_message(), Publish::Create);
    assert_eq!(game.set_game_message(Ok(None)), Ok(()));
    assert_eq!(game.edit_game_message(), Publish::Create);
    assert_eq!(game.set_game_message(Ok(Some(500))), Ok(()));
    assert_eq!(game.game_message(), Some(500));
    assert_eq!(game.edit_game_message(), Publish::Edit(500));
    assert_eq!(game.set_game_message(Ok(Some(501))), Ok(()));
    assert_eq!(game.game_message(), Some(500));
    assert_eq!(game.set_game_message(Ok(None)), Ok(()));
    assert_eq!(game.edit_game_message(), Publish::Edit(500));
}

#[test]
fn publish_fault_is_fatal_and_changes_nothing() {
    let mut game = polling(&[ALICE, BOB, CAROL]);
    cycle(&mut game, &[ALICE, CAROL], 110);
    assert_eq!(game.set_game_message(Err(Fault {})), Err(GameError::PublishFault));
    assert_eq!(game.game_message(), None);
    assert_eq!(game.phase(), Phase::Polling);
    assert_eq!(game.original_players()[1].eliminated_at, Some(at(110)));
}
