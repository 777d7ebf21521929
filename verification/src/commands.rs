//! Reading what a chat member wrote: the bot's commands, the confirmation that
//! ends a season, and the choice of a week.

use vstd::prelude::*;
use crate::numbers::{parse_i32, parse_i32_spec};

verus! {

/// A command of the bot, as a chat member can send it in a chat that is in
/// its ordinary state.
#[derive(PartialEq, Eq, Structural, Clone, Copy, Debug)]
pub enum Command {
    /// `/start`: begins the season of the chat.
    Start,
    /// `/standings`: standings of the ongoing week.
    Standings,
    /// `/full_standings`: standings of the whole season.
    FullStandings,
    /// `/all_bets`: share of correct bets over the season.
    AllBets,
    /// `/game_results`: results of the games of the current week.
    GameResults,
    /// `/stop_season`: asks to end the season.
    StopSeason,
    /// `/week_standings`: standings of a week to be chosen.
    WeekStandings,
    /// `/sage`: sends an animation.
    Sage,
    /// `/help`: lists the commands.
    Help,
    /// `/rankings`, only in this plain form: the season standings.
    Rankings,
    /// Any other text.
    Other,
}

/// `text` is the command `name`, either plain or addressed to the bot by its
/// username, as Telegram writes commands in groups.
pub open spec fn names_command(text: Seq<char>, name: Seq<char>) -> bool {
    text == name || text == name + "@BasketballBettingBot"@
}

/// The command that a text is.
pub open spec fn command_of(text: Seq<char>) -> Command {
    if names_command(text, "/start"@) {
        Command::Start
    } else if names_command(text, "/standings"@) {
        Command::Standings
    } else if names_command(text, "/full_standings"@) {
        Command::FullStandings
    } else if names_command(text, "/all_bets"@) {
        Command::AllBets
    } else if names_command(text, "/game_results"@) {
        Command::GameResults
    } else if names_command(text, "/stop_season"@) {
        Command::StopSeason
    } else if names_command(text, "/week_standings"@) {
        Command::WeekStandings
    } else if names_command(text, "/sage"@) {
        Command::Sage
    } else if names_command(text, "/help"@) {
        Command::Help
    } else if text == "/rankings"@ {
        Command::Rankings
    } else {
        Command::Other
    }
}

/// Whether `text` is the command `name`, plain or addressed to the bot.
fn is_command(text: &String, name: &str) -> (r: bool)
    ensures
        r == names_command(text@, name@),
{
    let plain = String::from_str(name);
    if *text == plain {
        return true;
    }
    let addressed = String::from_str(name).concat("@BasketballBettingBot");
    *text == addressed
}

/// The command that a text is.
pub fn parse_command(text: &str) -> (c: Command)
    ensures
        c == command_of(text@),
{
    let t = String::from_str(text);
    if is_command(&t, "/start") {
        Command::Start
    } else if is_command(&t, "/standings") {
        Command::Standings
    } else if is_command(&t, "/full_standings") {
        Command::FullStandings
    } else if is_command(&t, "/all_bets") {
        Command::AllBets
    } else if is_command(&t, "/game_results") {
        Command::GameResults
    } else if is_command(&t, "/stop_season") {
        Command::StopSeason
    } else if is_command(&t, "/week_standings") {
        Command::WeekStandings
    } else if is_command(&t, "/sage") {
        Command::Sage
    } else if is_command(&t, "/help") {
        Command::Help
    } else if t == String::from_str("/rankings") {
        Command::Rankings
    } else {
        Command::Other
    }
}

/// The text that confirms the end of a season.
pub open spec fn is_end_confirmation(text: Seq<char>) -> bool {
    text == "/end_my_season"@
}

/// Whether the text confirms the end of a season.
pub fn confirms_end_of_season(text: &str) -> (r: bool)
    ensures
        r == is_end_confirmation(text@),
{
    String::from_str(text) == String::from_str("/end_my_season")
}

/// The week number a chat member asked for when offered a choice of weeks:
/// the number after a leading `/`; a text without the `/` counts as `-1`.
/// `None` when the text after the `/` is no `i32`.
pub open spec fn requested_week(text: Seq<char>) -> Option<int> {
    if text.len() > 0 && text[0] == '/' {
        parse_i32_spec(text.drop_first())
    } else {
        Some(-1)
    }
}

/// The week number a chat member asked for.
pub fn parse_requested_week(text: &str) -> (r: Option<i32>)
    ensures
        match r {
            Some(w) => requested_week(text@) == Some(w as int),
            None => requested_week(text@) is None,
        },
{
    let len = text.unicode_len();
    if len > 0 && text.get_char(0) == '/' {
        let rest = text.substring_char(1, len);
        assert(rest@ =~= text@.drop_first());
        parse_i32(rest)
    } else {
        Some(-1)
    }
}

} // verus!
