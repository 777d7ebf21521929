use basketball_betting_bot::chats::get_active_chat_status;
use basketball_betting_bot::dates::{
    east_coast_date_at, east_coast_date_in_x_days, east_coast_date_today, east_coast_date_today_at, CalendarDate,
};
use basketball_betting_bot::error::Error;
use basketball_betting_bot::polls::{
    advance_poll_answer, begin_poll_answer, bet_side, new_user, user_effects, BetSide, PollAnswer, PollEffect,
    PollQuery, PollStep, PollTurn,
};

enum End {
    Done(Vec<PollEffect>),
    /// The first option is no bet; the effects of learning about the member.
    Fail(Vec<PollEffect>),
}

fn run_poll(options: &[i32], answers: &[PollAnswer]) -> (End, Vec<PollQuery>) {
    let mut effects = Vec::new();
    let mut queries = Vec::new();
    let mut step = begin_poll_answer(&options.to_vec());
    let mut i = 0;
    loop {
        match step {
            PollStep::Done(e) => {
                effects.extend(e);
                return (End::Done(effects), queries);
            }
            PollStep::Ask(e, q, t) => {
                effects.extend(e);
                queries.push(q);
                if let PollTurn::CheckUser { option, chat_id, .. } = t {
                    if !matches!(option, Some(0) | Some(1)) {
                        effects.extend(user_effects(answers[i] == PollAnswer::Known(true), chat_id));
                        return (End::Fail(effects), queries);
                    }
                }
                step = advance_poll_answer(t, answers[i]);
                i += 1;
            }
        }
    }
}

#[test]
fn bet_sides() {
    assert_eq!(bet_side(0), BetSide::Away);
    assert_eq!(bet_side(1), BetSide::Home);
}

#[test]
fn foreign_poll_is_ignored() {
    match run_poll(&[0], &[PollAnswer::Known(false)]).0 {
        End::Done(e) => assert!(e.is_empty()),
        End::Fail(_) => panic!("a foreign poll does not fail"),
    }
}

#[test]
fn new_player_bets_on_home_team() {
    let answers = [
        PollAnswer::Known(true),
        PollAnswer::Target { chat_id: -100, game_id: 7 },
        PollAnswer::Known(false),
        PollAnswer::Team(23),
    ];
    let (end, queries) = run_poll(&[1], &answers);
    assert_eq!(queries[3], PollQuery::TeamOf { game_id: 7, side: BetSide::Home });
    match end {
        End::Done(e) => assert_eq!(
            e,
            vec![
                PollEffect::AddUser { chat_id: -100 },
                PollEffect::AddBet { game_id: 7, chat_id: -100, team_id: 23 }
            ]
        ),
        End::Fail(_) => panic!("a valid bet does not fail"),
    }
}

#[test]
fn known_player_bets_on_away_team() {
    let answers = [
        PollAnswer::Known(true),
        PollAnswer::Target { chat_id: 5, game_id: 2 },
        PollAnswer::Known(true),
        PollAnswer::Team(11),
    ];
    let (end, queries) = run_poll(&[0, 1], &answers);
    assert_eq!(queries[3], PollQuery::TeamOf { game_id: 2, side: BetSide::Away });
    match end {
        End::Done(e) => assert_eq!(e, vec![PollEffect::AddBet { game_id: 2, chat_id: 5, team_id: 11 }]),
        End::Fail(_) => panic!("a valid bet does not fail"),
    }
}

#[test]
fn answer_without_bet_fails_after_adding_player() {
    let answers = [PollAnswer::Known(true), PollAnswer::Target { chat_id: 5, game_id: 2 }, PollAnswer::Known(false)];
    match run_poll(&[2], &answers).0 {
        End::Fail(e) => assert_eq!(e, vec![PollEffect::AddUser { chat_id: 5 }]),
        End::Done(_) => panic!("a third option is no bet"),
    }
    match run_poll(&[], &answers).0 {
        End::Fail(e) => assert_eq!(e, vec![PollEffect::AddUser { chat_id: 5 }]),
        End::Done(_) => panic!("a retracted vote is no bet"),
    }
}

#[test]
fn new_user_defaults() {
    let u = new_user(9, "Kim".to_string(), None, None, None);
    assert_eq!((u.id, u.first_name.as_str(), u.last_name.as_str(), u.username.as_str(), u.language_code.as_str()), (9, "Kim", "", "", "en"));
    let u = new_user(9, "Kim".to_string(), Some("Lo".into()), Some("kl".into()), Some("de".into()));
    assert_eq!((u.last_name.as_str(), u.username.as_str(), u.language_code.as_str()), ("Lo", "kl", "de"));
}

#[test]
fn active_status_defaults_to_inactive() {
    assert!(get_active_chat_status(Some(true)));
    assert!(!get_active_chat_status(Some(false)));
    assert!(!get_active_chat_status(None));
}

fn date(year: i32, month: u32, day: u32) -> CalendarDate {
    CalendarDate { year, month, day }
}

// 1600000000 is 2020-09-13 12:26:40 UTC, 07:26:40 on the East Coast.
const NOW: i64 = 1_600_000_000;

#[test]
fn east_coast_dates_around_an_instant() {
    assert_eq!(east_coast_date_today_at(NOW).unwrap(), date(2020, 9, 13));
    assert_eq!(east_coast_date_at(NOW, 1, false).unwrap(), date(2020, 9, 14));
    assert_eq!(east_coast_date_at(NOW, 7, false).unwrap(), date(2020, 9, 20));
    assert_eq!(east_coast_date_at(NOW, 20, true).unwrap(), date(2020, 8, 24));
    assert_eq!(east_coast_date_at(NOW, 0, true).unwrap(), date(2020, 9, 13));
    assert_eq!(east_coast_date_at(NOW, -1, true).unwrap(), date(2020, 9, 14));
}

#[test]
fn east_coast_lags_utc_by_five_hours() {
    // 2021-01-01 04:59:59 UTC is still New Year's Eve on the East Coast.
    assert_eq!(east_coast_date_today_at(1_609_477_199).unwrap(), date(2020, 12, 31));
    assert_eq!(east_coast_date_today_at(1_609_477_200).unwrap(), date(2021, 1, 1));
}

#[test]
fn dates_out_of_range() {
    assert!(east_coast_date_today_at(8_210_266_876_799).is_ok());
    assert_eq!(east_coast_date_today_at(-8_334_601_228_800 + 18_000).unwrap(), date(-262143, 1, 1));
    assert!(matches!(east_coast_date_in_x_days(200_000_000, false), Err(Error::DateOutOfRange)));
    assert!(matches!(east_coast_date_in_x_days(200_000_000, true), Err(Error::DateOutOfRange)));
    assert!(east_coast_date_in_x_days(36_525, false).is_ok());
}

#[test]
fn clock_dates_are_ordered() {
    let today = east_coast_date_today().unwrap();
    let tomorrow = east_coast_date_in_x_days(1, false).unwrap();
    let yesterday = east_coast_date_in_x_days(1, true).unwrap();
    let key = |d: CalendarDate| (d.year, d.month, d.day);
    assert!(key(yesterday) < key(today) || key(today) < key(tomorrow));
    assert!(key(yesterday) <= key(tomorrow));
}

#[test]
fn zero_days_away_is_today() {
    for now in [NOW, 1_609_477_199, 0, -86_400] {
        assert_eq!(east_coast_date_at(now, 0, false).unwrap(), east_coast_date_today_at(now).unwrap());
        assert_eq!(east_coast_date_at(now, 3, true).unwrap(), east_coast_date_at(now, -3, false).unwrap());
    }
}

#[test]
fn chrono_range_is_the_stated_one() {
    let first: i64 = -8_334_601_228_800;
    let last: i64 = 8_210_266_876_799;
    assert!(chrono::DateTime::from_timestamp(first, 0).is_some());
    assert!(chrono::DateTime::from_timestamp(first - 1, 0).is_none());
    assert!(chrono::DateTime::from_timestamp(last, 0).is_some());
    assert!(chrono::DateTime::from_timestamp(last + 1, 0).is_none());
}

#[test]
fn user_effects_add_only_new_members() {
    assert_eq!(user_effects(false, 4), vec![PollEffect::AddUser { chat_id: 4 }]);
    assert!(user_effects(true, 4).is_empty());
}
