use basketball_betting_bot::commands::Command;
use basketball_betting_bot::dialogue::{
    advance, begin_turn, Answer, Dialogue, Effect, Query, ReadyState, SetupState, Step, StopState, Turn,
    WeekInputState,
};
use basketball_betting_bot::messages::Message;

const READY: Dialogue = Dialogue::Ready(ReadyState);

/// Runs a turn, answering the questions in order; returns all effects and the
/// next state.
fn run(dialogue: Dialogue, text: Option<&str>, answers: &[Answer]) -> (Vec<Effect>, Dialogue, Vec<Query>) {
    let mut effects = Vec::new();
    let mut queries = Vec::new();
    let mut step = begin_turn(dialogue, text);
    let mut i = 0;
    loop {
        match step {
            Step::Done(e, d) => {
                effects.extend(e);
                assert_eq!(i, answers.len(), "unused answers");
                return (effects, d, queries);
            }
            Step::Ask(e, q, t) => {
                effects.extend(e);
                queries.push(q);
                step = advance(t, answers[i]);
                i += 1;
            }
        }
    }
}

#[test]
fn default_dialogue_is_setup() {
    assert_eq!(Dialogue::default(), Dialogue::Setup(SetupState));
}

#[test]
fn textless_message_changes_nothing() {
    let (e, d, q) = run(Dialogue::Stop(StopState), None, &[]);
    assert!(e.is_empty() && q.is_empty());
    assert_eq!(d, Dialogue::Stop(StopState));
}

#[test]
fn setup_registers_unknown_chat() {
    let (e, d, _) = run(Dialogue::Setup(SetupState), Some("hi"), &[Answer::Connected(true), Answer::Flag(None)]);
    assert_eq!(e, vec![Effect::RegisterChat, Effect::ReportSetup]);
    assert_eq!(d, READY);
    let (e, _, _) = run(Dialogue::Setup(SetupState), Some("hi"), &[Answer::Connected(true), Answer::Flag(Some(true))]);
    assert_eq!(e, vec![Effect::ReportSetup]);
}

#[test]
fn no_database_no_answer() {
    let (e, d, q) = run(READY, Some("/help"), &[Answer::Connected(false)]);
    assert!(e.is_empty());
    assert_eq!(d, READY);
    assert_eq!(q, vec![Query::ConnectDatabase]);
}

#[test]
fn inactive_chat_is_told_to_start() {
    let (e, d, _) = run(
        READY,
        Some("/standings"),
        &[Answer::Connected(true), Answer::Flag(Some(true)), Answer::Flag(Some(false))],
    );
    assert_eq!(e, vec![Effect::Say(Message::SendStart)]);
    assert_eq!(d, READY);
    let (e, _, _) = run(READY, Some("/help"), &[Answer::Connected(true), Answer::Flag(Some(false)), Answer::Flag(None)]);
    assert_eq!(e, vec![Effect::RegisterChat, Effect::Say(Message::SendStart)]);
}

#[test]
fn start_with_enough_cached_games() {
    let (e, d, q) = run(
        READY,
        Some("/start@BasketballBettingBot"),
        &[
            Answer::Connected(true),
            Answer::Flag(Some(true)),
            Answer::Flag(Some(false)),
            Answer::Flag(Some(false)),
            Answer::Games(Some(11)),
        ],
    );
    assert_eq!(
        e,
        vec![
            Effect::Say(Message::Introduction),
            Effect::Say(Message::SeasonBegins),
            Effect::SendPolls,
            Effect::SetChatActive(true)
        ]
    );
    assert_eq!(d, READY);
    assert_eq!(q.last(), Some(&Query::CachedGames));
}

#[test]
fn start_fetches_games_when_cache_is_short() {
    let (e, _, q) = run(
        READY,
        Some("/start"),
        &[
            Answer::Connected(true),
            Answer::Flag(Some(true)),
            Answer::Flag(None),
            Answer::Flag(None),
            Answer::Games(None),
            Answer::Games(Some(10)),
        ],
    );
    assert_eq!(q.last(), Some(&Query::UpcomingGames { count: 10, first_day: 1, last_day: 7 }));
    assert_eq!(e.last(), Some(&Effect::SetChatActive(true)));
}

#[test]
fn start_in_running_season() {
    let (e, _, _) = run(
        READY,
        Some("/start"),
        &[Answer::Connected(true), Answer::Flag(Some(true)), Answer::Flag(Some(true)), Answer::Flag(Some(true))],
    );
    assert_eq!(e, vec![Effect::Say(Message::AlreadyStarted)]);
}

fn active(text: &str, more: &[Answer]) -> (Vec<Effect>, Dialogue) {
    let mut answers = vec![Answer::Connected(true), Answer::Flag(Some(true)), Answer::Flag(Some(true))];
    answers.extend_from_slice(more);
    let (e, d, _) = run(READY, Some(text), &answers);
    (e, d)
}

#[test]
fn standings_commands() {
    assert_eq!(active("/standings", &[]), (vec![Effect::ShowWeekRankings(-1)], READY));
    assert_eq!(active("/full_standings", &[]), (vec![Effect::ShowCompleteRankings], READY));
    assert_eq!(active("/all_bets", &[]), (vec![Effect::ShowAllBetsSeason], READY));
    assert_eq!(active("/help", &[]), (vec![Effect::Say(Message::Help)], READY));
    assert_eq!(active("good game", &[]), (vec![], READY));
    assert_eq!(
        active("/rankings", &[]),
        (vec![Effect::Note(Message::Rank), Effect::ShowCompleteRankings], READY)
    );
}

#[test]
fn game_results_of_current_week() {
    assert_eq!(active("/game_results", &[Answer::Week(Some(4))]), (vec![Effect::ShowGameResults(4)], READY));
    assert_eq!(
        active("/game_results", &[Answer::Week(None)]),
        (vec![Effect::Say(Message::StandingsUnavailable)], READY)
    );
}

#[test]
fn stop_season_needs_admin() {
    assert_eq!(
        active("/stop_season", &[Answer::Flag(Some(true))]),
        (vec![Effect::Say(Message::StopConfirmation)], Dialogue::Stop(StopState))
    );
    assert_eq!(
        active("/stop_season", &[Answer::Flag(None)]),
        (vec![Effect::Say(Message::OnlyAdminsStopSeason)], READY)
    );
}

#[test]
fn week_standings_offers_weeks() {
    assert_eq!(
        active("/week_standings", &[Answer::Week(Some(1))]),
        (vec![Effect::Say(Message::SingleWeekPlayed), Effect::ShowWeekRankings(1)], READY)
    );
    assert_eq!(
        active("/week_standings", &[Answer::Week(Some(5))]),
        (
            vec![Effect::Say(Message::WeekChoice(5))],
            Dialogue::WeekInput(WeekInputState { max_week_number: 5 })
        )
    );
}

#[test]
fn sage_reports_failed_animation() {
    assert_eq!(active("/sage", &[Answer::Sent(true)]), (vec![], READY));
    assert_eq!(active("/sage", &[Answer::Sent(false)]), (vec![Effect::Say(Message::GifUnavailable)], READY));
}

#[test]
fn ending_the_season() {
    let stop = Dialogue::Stop(StopState);
    let (e, d, _) = run(stop, Some("/end_my_season"), &[Answer::Connected(true), Answer::Flag(Some(true))]);
    assert_eq!(
        e,
        vec![
            Effect::ShowWeekRankings(-1),
            Effect::ShowCompleteRankings,
            Effect::ShowAllBetsSeason,
            Effect::RemoveChat,
            Effect::Say(Message::SeasonEnded)
        ]
    );
    assert_eq!(d, READY);
    let (e, _, _) = run(stop, Some("/continue"), &[Answer::Connected(true), Answer::Flag(Some(true))]);
    assert_eq!(e, vec![Effect::Say(Message::SeasonContinues)]);
    let (e, _, _) = run(stop, Some("/end_my_season"), &[Answer::Connected(true), Answer::Flag(Some(false))]);
    assert_eq!(e, vec![Effect::Say(Message::OnlyAdminsStopChat)]);
}

#[test]
fn choosing_a_week() {
    let choose = Dialogue::WeekInput(WeekInputState { max_week_number: 3 });
    let connected = [Answer::Connected(true)];
    assert_eq!(run(choose, Some("/2"), &connected).0, vec![Effect::ShowWeekRankings(2)]);
    assert_eq!(run(choose, Some("/3"), &connected).0, vec![Effect::ShowWeekRankings(3)]);
    assert_eq!(run(choose, Some("/4"), &connected).0, vec![Effect::Say(Message::WeekNotPlayed)]);
    assert_eq!(run(choose, Some("/0"), &connected).0, vec![Effect::Say(Message::WeekNotPlayed)]);
    assert_eq!(run(choose, Some("2"), &connected).0, vec![Effect::Say(Message::WeekNotPlayed)]);
    assert_eq!(run(choose, Some("/two"), &connected).0, vec![Effect::Say(Message::InvalidNumber)]);
    let (e, d, _) = run(choose, Some("/2"), &[Answer::Connected(false)]);
    assert!(e.is_empty());
    assert_eq!(d, READY);
}

#[test]
fn ready_turn_starts_with_command() {
    match begin_turn(READY, Some("/sage")) {
        Step::Ask(e, q, t) => {
            assert!(e.is_empty());
            assert_eq!(q, Query::ConnectDatabase);
            assert_eq!(t, Turn::ReadyConnect(Command::Sage));
        }
        Step::Done(..) => panic!("a turn with text asks for the database first"),
    }
}
