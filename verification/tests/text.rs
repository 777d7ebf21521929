use basketball_betting_bot::commands::{confirms_end_of_season, parse_command, parse_requested_week, Command};
use basketball_betting_bot::messages::{message_text, Message};
use basketball_betting_bot::numbers::{decimal_string, parse_i32, push_decimal};
use basketball_betting_bot::rankings::{format_rankings, RankingEntry};

#[test]
fn decimal_of_zero_positive_and_negative() {
    assert_eq!(decimal_string(0), "0");
    assert_eq!(decimal_string(7), "7");
    assert_eq!(decimal_string(1234), "1234");
    assert_eq!(decimal_string(-56), "-56");
    assert_eq!(decimal_string(i64::MIN), "-9223372036854775808");
    assert_eq!(decimal_string(i64::MAX), "9223372036854775807");
}

#[test]
fn push_decimal_appends() {
    let mut s = String::from("week ");
    push_decimal(&mut s, 12);
    assert_eq!(s, "week 12");
}

#[test]
fn parse_i32_accepts_what_std_accepts() {
    for text in ["0", "42", "-7", "+5", "007", "2147483647", "-2147483648", "", "-", "+", "12a", " 1", "2147483648", "-2147483649", "99999999999999", "1.5", "٣"] {
        assert_eq!(parse_i32(text), text.parse::<i32>().ok(), "{text:?}");
    }
}

#[test]
fn decimal_reads_back() {
    for n in [0, 1, 9, 10, 99, 100, -1, -10, i32::MAX, i32::MIN] {
        assert_eq!(parse_i32(&decimal_string(n as i64)), Some(n));
    }
}

#[test]
fn commands_plain_and_addressed() {
    let cases = [
        ("/start", Command::Start),
        ("/standings", Command::Standings),
        ("/full_standings", Command::FullStandings),
        ("/all_bets", Command::AllBets),
        ("/game_results", Command::GameResults),
        ("/stop_season", Command::StopSeason),
        ("/week_standings", Command::WeekStandings),
        ("/sage", Command::Sage),
        ("/help", Command::Help),
    ];
    for (name, command) in cases {
        assert_eq!(parse_command(name), command);
        assert_eq!(parse_command(&format!("{name}@BasketballBettingBot")), command);
    }
}

#[test]
fn other_texts_are_no_command() {
    for text in ["", "hello", "/start ", "/START", "/start@OtherBot", "/rankings@BasketballBettingBot", "start"] {
        assert_eq!(parse_command(text), Command::Other);
    }
}

#[test]
fn rankings_command_is_plain_only() {
    assert_eq!(parse_command("/rankings"), Command::Rankings);
    assert_eq!(message_text(Message::Rank), "RANK");
}

#[test]
fn end_confirmation_is_exact() {
    assert!(confirms_end_of_season("/end_my_season"));
    assert!(!confirms_end_of_season("/end_my_season@BasketballBettingBot"));
    assert!(!confirms_end_of_season("/continue"));
}

#[test]
fn requested_week_numbers() {
    assert_eq!(parse_requested_week("/3"), Some(3));
    assert_eq!(parse_requested_week("/-2"), Some(-2));
    assert_eq!(parse_requested_week("3"), Some(-1));
    assert_eq!(parse_requested_week(""), Some(-1));
    assert_eq!(parse_requested_week("/"), None);
    assert_eq!(parse_requested_week("/three"), None);
    assert_eq!(parse_requested_week("/3 "), None);
}

#[test]
fn week_choice_lists_weeks() {
    assert_eq!(
        message_text(Message::WeekChoice(3)),
        "Click on the week that you want to show the results for!\n/1\t\t\t/2\t\t\t/3\t\t\t"
    );
    assert_eq!(
        message_text(Message::WeekChoice(0)),
        "Click on the week that you want to show the results for!\n"
    );
    assert_eq!(
        message_text(Message::WeekChoice(-4)),
        "Click on the week that you want to show the results for!\n"
    );
}

#[test]
fn fixed_replies() {
    assert_eq!(message_text(Message::SendStart), "Send /start to begin your season!");
    assert_eq!(message_text(Message::SeasonEnded), "SEASON ENDED");
    assert_eq!(message_text(Message::InvalidNumber), "Please enter a valid number");
    assert!(message_text(Message::Introduction).starts_with("\nBasketballBettingBot sends you 11 NBA games"));
    assert!(message_text(Message::Help).contains("/sage \n-> Cleanse the chat from toxic energy"));
    assert_eq!(
        message_text(Message::StopConfirmation),
        "Send /end_my_season to end the season.\n\nAfterwards you will get the standings of this week and the complete results table.\n\nYOU CAN'T UNDO THIS ACTION AND ALL YOUR BETS AND RESULTS ARE LOST!\n\nSend /continue to go on!"
    );
}

fn entry(first: &str, last: &str, user: &str, points: i64) -> RankingEntry {
    RankingEntry {
        first_name: first.to_string(),
        last_name: last.to_string(),
        username: user.to_string(),
        points,
    }
}

#[test]
fn rankings_are_numbered_in_order() {
    let entries = vec![entry("Ann", "Lee", "ann", 7), entry("Bob", "Ray", "", 3)];
    assert_eq!(
        format_rankings(&entries),
        "1. Ann Lee @ann\nPoints: 7\n2. Bob Ray \nPoints: 3\n"
    );
}

#[test]
fn empty_rankings_are_empty() {
    assert_eq!(format_rankings(&Vec::new()), "");
}

#[test]
fn standings_of_first_players_begin_the_standings() {
    let all = vec![entry("Ann", "Lee", "ann", 7), entry("Bob", "Ray", "", 3), entry("Cy", "Po", "cp", 1)];
    let first_two = vec![entry("Ann", "Lee", "ann", 7), entry("Bob", "Ray", "", 3)];
    assert!(format_rankings(&all).starts_with(&format_rankings(&first_two)));
    assert!(format_rankings(&all).ends_with("3. Cy Po @cp\nPoints: 1\n"));
}
