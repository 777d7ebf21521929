//! What the bot's operations must give, stated directly over their inputs and
//! results rather than through the specifications that their contracts use.

use vstd::prelude::*;
use crate::numbers::{
    all_digits, char_digit, decimal, digits, digits_value, lemma_digits_denote, parse_i32_spec,
    unsigned_part,
};
use crate::commands::{Command, command_of};
use crate::dialogue::{
    Answer, Dialogue, Effect, Query, ReadyState, StepView, StopState, Turn, WeekInputState,
    first_step, is_yes, next_step,
};
use crate::laws::law_decimal_reads_back;
use crate::polls::{BetSide, or_default, side_of_option};
use crate::dates::{date_format, date_in_days_in_range, east_coast_offset, moved_instant};
use crate::messages::{Message, text_of_message, week_options};
use crate::rankings::{RankingEntry, rankings_text};

verus! {

/// `p` occurs in `s`.
pub open spec fn occurs_in(p: Seq<char>, s: Seq<char>) -> bool {
    exists|i: int| 0 <= i && i + p.len() <= s.len() && #[trigger] s.subrange(i, i + p.len()) == p
}

/// The command that offers week `k`: `/`, the week number, three tabs.
pub open spec fn week_command(k: int) -> Seq<char> {
    "/"@ + decimal(k) + "\t\t\t"@
}

/// The heading of the choice of weeks.
pub open spec fn week_choice_heading() -> Seq<char> {
    "Click on the week that you want to show the results for!\n"@
}

/// `/week_standings` with the current week looked up: week 1 alone is shown
/// at once; any other week `w` is offered as a choice of the weeks up to `w`
/// and the chat waits for that choice; a failed lookup is apologised for.
pub proof fn law_week_standings_offers_weeks(w: i32)
    ensures
        w != 1 ==> next_step(Turn::WeekStandingsWeek, Answer::Week(Some(w))) == StepView::Done(
            seq![Effect::Say(Message::WeekChoice(w))],
            Dialogue::WeekInput(WeekInputState { max_week_number: w }),
        ),
        next_step(Turn::WeekStandingsWeek, Answer::Week(Some(1i32))) == StepView::Done(
            seq![Effect::Say(Message::SingleWeekPlayed), Effect::ShowWeekRankings(1i32)],
            Dialogue::Ready(ReadyState),
        ),
        next_step(Turn::WeekStandingsWeek, Answer::Week(None)) == StepView::Done(
            seq![Effect::Say(Message::StandingsUnavailable)],
            Dialogue::Ready(ReadyState),
        ),
{
}

/// A season begins with the games of the cache when it holds at least 11;
/// with fewer (or none to be had) ten games of the coming week are looked up
/// first, tomorrow to seven days on, and no poll is sent before they are.
/// Whatever that lookup gives, the polls are then sent and the season marked
/// as running.
pub proof fn law_season_start_needs_eleven_games(n: usize, a: Answer)
    ensures
        n < 11 ==> next_step(Turn::StartCachedGames, Answer::Games(Some(n))) == StepView::Ask(
            Seq::<Effect>::empty(),
            Query::UpcomingGames { count: 10i32, first_day: 1i64, last_day: 7i64 },
            Turn::StartFetchedGames,
        ),
        next_step(Turn::StartCachedGames, Answer::Games(None)) == StepView::Ask(
            Seq::<Effect>::empty(),
            Query::UpcomingGames { count: 10i32, first_day: 1i64, last_day: 7i64 },
            Turn::StartFetchedGames,
        ),
        n >= 11 ==> next_step(Turn::StartCachedGames, Answer::Games(Some(n))) == StepView::Done(
            seq![Effect::SendPolls, Effect::SetChatActive(true)],
            Dialogue::Ready(ReadyState),
        ),
        next_step(Turn::StartFetchedGames, a) == StepView::Done(
            seq![Effect::SendPolls, Effect::SetChatActive(true)],
            Dialogue::Ready(ReadyState),
        ),
{
}

/// Adding a player to the bottom of the standings adds their two lines after
/// those of the players above: the rank (one more than the players above),
/// `. `, first name, last name, the username after `@` (nothing when there is
/// none), then `Points: ` and the points written in full. No players, no text.
pub proof fn law_standings_lines(entries: Seq<RankingEntry>, e: RankingEntry)
    ensures
        rankings_text(Seq::<RankingEntry>::empty()) == Seq::<char>::empty(),
        rankings_text(entries.push(e)) == rankings_text(entries) + decimal(entries.len() + 1int)
            + ". "@ + e.first_name@ + " "@ + e.last_name@ + " "@ + (if e.username@.len() == 0 {
            Seq::<char>::empty()
        } else {
            "@"@ + e.username@
        }) + "\nPoints: "@ + decimal(e.points as int) + "\n"@,
{
    assert(entries.push(e).drop_last() =~= entries);
}

/// How an integer is written: a natural number as its decimal digits, which
/// denote it, with no leading zero (but for `0` itself); a negative number
/// as `-` followed by the digits of its magnitude.
pub proof fn law_decimal_denotes(n: int)
    ensures
        n >= 0 ==> all_digits(decimal(n)) && digits_value(decimal(n)) == n && (decimal(n).len() == 1
            || decimal(n)[0] != '0'),
        n < 0 ==> decimal(n)[0] == '-' && all_digits(decimal(n).drop_first()) && digits_value(
            decimal(n).drop_first(),
        ) == -n && decimal(n).drop_first()[0] != '0',
        0 <= n < 10 ==> decimal(n).len() == 1 && char_digit(decimal(n)[0]) == Some(n),
{
    let m: nat = if n >= 0 { n as nat } else { (-n) as nat };
    lemma_digits_denote(m);
    lemma_digits_lead(m);
    if n < 0 {
        assert(decimal(n).drop_first() =~= digits(m));
    }
}

/// The digits of a number start with a zero only when the number is zero.
proof fn lemma_digits_lead(n: nat)
    ensures
        digits(n)[0] == '0' ==> n == 0,
        n < 10 ==> digits(n).len() == 1,
        n >= 10 ==> digits(n).len() >= 2,
    decreases n,
{
    if n >= 10 {
        lemma_digits_lead(n / 10);
        assert(digits(n)[0] == digits(n / 10)[0]);
    }
}

/// The offered weeks only grow: the list for `k` weeks begins the list for
/// any `n >= k` weeks.
proof fn lemma_week_options_prefix(k: int, n: int)
    requires
        0 <= k <= n,
    ensures
        week_options(k).is_prefix_of(week_options(n)),
    decreases n - k,
{
    if k < n {
        lemma_week_options_prefix(k, n - 1);
        let a = week_options(k);
        let b = week_options(n - 1);
        let c = week_options(n);
        assert(c == b + "/"@ + decimal(n) + "\t\t\t"@);
        assert forall|i: int| 0 <= i < a.len() implies a[i] == c[i] by {
            assert(a[i] == b[i]);
        }
    }
}

/// The choice of weeks for `n` weeks offers every week from 1 to `n`: its
/// text holds the command of each; and it is the choice for any fewer weeks
/// with more commands after it, so that weeks are listed in order and every
/// further week lengthens the list.
pub proof fn law_week_choice_offers_every_week(n: i32, k: int, m: i32)
    ensures
        1 <= k <= n ==> occurs_in(week_command(k), text_of_message(Message::WeekChoice(n))),
        0 <= m <= n ==> text_of_message(Message::WeekChoice(m)).is_prefix_of(
            text_of_message(Message::WeekChoice(n)),
        ),
        0 <= m < n ==> text_of_message(Message::WeekChoice(m)).len() < text_of_message(
            Message::WeekChoice(n),
        ).len(),
        n <= 0 ==> text_of_message(Message::WeekChoice(n)) == week_choice_heading(),
{
    let h = week_choice_heading();
    if 1 <= k <= n {
        lemma_week_options_prefix(k, n as int);
        let t = text_of_message(Message::WeekChoice(n));
        let p = week_command(k);
        let before = week_options(k - 1);
        let i: int = h.len() as int + before.len() as int;
        assert(week_options(k) == before + p);
        assert(t == h + week_options(n as int));
        assert(t.subrange(i, i + p.len() as int) =~= p) by {
            assert forall|j: int| 0 <= j < p.len() implies t.subrange(i, i + p.len() as int)[j] == p[j] by {
                assert(t[i + j] == week_options(n as int)[before.len() + j]);
                assert(week_options(n as int)[before.len() + j] == week_options(k)[before.len() + j]);
            }
        }
    }
    if 0 <= m <= n {
        lemma_week_options_prefix(m as int, n as int);
        let a = h + week_options(m as int);
        let c = h + week_options(n as int);
        assert forall|i: int| 0 <= i < a.len() implies a[i] == c[i] by {
            if i >= h.len() {
                assert(a[i] == week_options(m as int)[i - h.len() as int]);
                assert(c[i] == week_options(n as int)[i - h.len() as int]);
            }
        }
    }
    if 0 <= m < n {
        lemma_week_options_prefix(m as int, (n - 1) as int);
        lemma_digits_denote(n as nat);
        assert(week_options(n as int) == week_options(n - 1) + "/"@ + decimal(n as int) + "\t\t\t"@);
        assert(decimal(n as int).len() > 0);
    }
}

/// The fixed replies, word for word.
pub proof fn law_fixed_replies()
    ensures
        text_of_message(Message::SendStart) == "Send /start to begin your season!"@,
        text_of_message(Message::AlreadyStarted) == "Looks like you've started your season already!"@,
        text_of_message(Message::Introduction) == r#"
BasketballBettingBot sends you 11 NBA games to bet on each week, 10 good ones and one battle between the supreme tank commanders. 
The one who gets the most games right in a week gets one point.
You play against the other members of your group.
The overall winner is the one with the most weekly wins (/full_standings) or the one with the most correct bets overall (/all_bets). Your Call.

To get a list of all commands the bot understands, send /help
"#@,
        text_of_message(Message::SeasonBegins) == "Your season begins now!"@,
        text_of_message(Message::StandingsUnavailable) == "Sorry, could not send standings right now!"@,
        text_of_message(Message::StopConfirmation) == "Send /end_my_season to end the season.\n
Afterwards you will get the standings of this week and the complete results table.\n
YOU CAN'T UNDO THIS ACTION AND ALL YOUR BETS AND RESULTS ARE LOST!\n
Send /continue to go on!"@,
        text_of_message(Message::OnlyAdminsStopSeason) == "Only the group admins can stop the season!"@,
        text_of_message(Message::SingleWeekPlayed) == "You haven't played more than one week yet!\nHere are the standings for that week:"@,
        text_of_message(Message::GifUnavailable) == "Sorry, could not send the GIF, try again later!"@,
        text_of_message(Message::Help) == r#"
BasketballBettingBot sends you 11 NBA games to bet on each week, 10 good ones and one battle between the supreme tank commanders. 
The one who gets the most games right in a week gets one point.
You play against the other members of your group.
The overall winner is the one with the most weekly wins (/full_standings) or the one with the most correct bets overall (/all_bets). Your Call.

Results are updated live during the games. 

/standings 
-> Show standings for the ongoing week

/full_standings 
-> Show standings for the whole season

/all_bets 
-> Show fraction of correct bets for the whole season 
(Alternative to weekly standings)

/week_standings 
-> Show standings for a specified week

/sage 
-> Cleanse the chat from toxic energy

/stop_season 
-> End the betting season and receive final standings
THIS CAN'T BE UNDONE!


"#@,
        text_of_message(Message::OnlyAdminsStopChat) == "Only the group admins can stop the chat!"@,
        text_of_message(Message::SeasonEnded) == "SEASON ENDED"@,
        text_of_message(Message::SeasonContinues) == "The season continues!"@,
        text_of_message(Message::WeekNotPlayed) == "You haven't played that week number yet!"@,
        text_of_message(Message::InvalidNumber) == "Please enter a valid number"@,
        text_of_message(Message::Rank) == "RANK"@,
{
}

/// The commands, word for word: the season commands plain or addressed to
/// the bot by its username, `/rankings` only plain; any other text is none.
pub proof fn law_commands_are_read(text: Seq<char>)
    ensures
        command_of("/start"@) == Command::Start,
        command_of("/standings"@) == Command::Standings,
        command_of("/full_standings"@) == Command::FullStandings,
        command_of("/all_bets"@) == Command::AllBets,
        command_of("/game_results"@) == Command::GameResults,
        command_of("/stop_season"@) == Command::StopSeason,
        command_of("/week_standings"@) == Command::WeekStandings,
        command_of("/sage"@) == Command::Sage,
        command_of("/help"@) == Command::Help,
        command_of("/rankings"@) == Command::Rankings,
        command_of("/start@BasketballBettingBot"@) == Command::Start,
        command_of("/stop_season@BasketballBettingBot"@) == Command::StopSeason,
        command_of("/week_standings@BasketballBettingBot"@) == Command::WeekStandings,
        text.len() == 0 ==> command_of(text) == Command::Other,
        text.len() > 0 && text[0] != '/' ==> command_of(text) == Command::Other,
{
    reveal_strlit("/rankings");
    reveal_strlit("/start");
    reveal_strlit("/standings");
    reveal_strlit("/full_standings");
    reveal_strlit("/all_bets");
    reveal_strlit("/game_results");
    reveal_strlit("/stop_season");
    reveal_strlit("/week_standings");
    reveal_strlit("/sage");
    reveal_strlit("/help");
    reveal_strlit("@BasketballBettingBot");
    reveal_strlit("/start@BasketballBettingBot");
    reveal_strlit("/stop_season@BasketballBettingBot");
    reveal_strlit("/week_standings@BasketballBettingBot");
    assert("/rankings"@[1] != "/all_bets"@[1]);
    assert("/full_standings"@[1] != "/week_standings"@[1]);
    assert("/sage"@[1] != "/help"@[1]);
    assert("/start@BasketballBettingBot"@ =~= "/start"@ + "@BasketballBettingBot"@);
    assert("/stop_season@BasketballBettingBot"@ =~= "/stop_season"@ + "@BasketballBettingBot"@);
    assert("/week_standings@BasketballBettingBot"@ =~= "/week_standings"@ + "@BasketballBettingBot"@);
    assert(("/full_standings"@ + "@BasketballBettingBot"@)[1] != ("/week_standings"@
        + "@BasketballBettingBot"@)[1]);
}

/// What each command does in a chat whose season runs (for `/start`, in any
/// chat), and what an inactive chat is answered.
pub proof fn law_commands_in_a_running_season(c: Command, a: Answer)
    ensures
        is_yes(a) || c == Command::Start ==> next_step(Turn::ReadyActive(c), a) == match c {
            Command::Start => StepView::Ask(Seq::<Effect>::empty(), Query::ChatIsActive, Turn::StartActive),
            Command::Standings => ready_with(seq![Effect::ShowWeekRankings(-1i32)]),
            Command::FullStandings => ready_with(seq![Effect::ShowCompleteRankings]),
            Command::AllBets => ready_with(seq![Effect::ShowAllBetsSeason]),
            Command::GameResults => StepView::Ask(Seq::<Effect>::empty(), Query::BetWeek, Turn::GameResultsWeek),
            Command::StopSeason => StepView::Ask(Seq::<Effect>::empty(), Query::SenderIsAdmin, Turn::StopSeasonAdmin),
            Command::WeekStandings => StepView::Ask(Seq::<Effect>::empty(), Query::BetWeek, Turn::WeekStandingsWeek),
            Command::Sage => StepView::Ask(Seq::<Effect>::empty(), Query::SendSageAnimation, Turn::SageSent),
            Command::Help => ready_with(seq![Effect::Say(Message::Help)]),
            Command::Rankings => ready_with(seq![Effect::Note(Message::Rank), Effect::ShowCompleteRankings]),
            Command::Other => ready_with(Seq::<Effect>::empty()),
        },
        !is_yes(a) && c != Command::Start ==> next_step(Turn::ReadyActive(c), a) == ready_with(
            seq![Effect::Say(Message::SendStart)],
        ),
{
}

/// The chat waits for commands after the given effects.
pub open spec fn ready_with(effects: Seq<Effect>) -> StepView {
    StepView::Done(effects, Dialogue::Ready(ReadyState))
}

/// The steps of a turn in a waiting chat before its command is acted on, of
/// a season start, and of the commands that look something up.
pub proof fn law_ready_turn_steps(c: Command, a: Answer, w: i32)
    ensures
        next_step(Turn::ReadyConnect(c), Answer::Connected(true)) == StepView::Ask(
            Seq::<Effect>::empty(),
            Query::ChatIsKnown,
            Turn::ReadyKnown(c),
        ),
        a != Answer::Connected(true) ==> next_step(Turn::ReadyConnect(c), a) == ready_with(
            Seq::<Effect>::empty(),
        ),
        next_step(Turn::ReadyKnown(c), a) == StepView::Ask(
            if is_yes(a) {
                Seq::<Effect>::empty()
            } else {
                seq![Effect::RegisterChat]
            },
            Query::ChatIsActive,
            Turn::ReadyActive(c),
        ),
        is_yes(a) ==> next_step(Turn::StartActive, a) == ready_with(
            seq![Effect::Say(Message::AlreadyStarted)],
        ),
        !is_yes(a) ==> next_step(Turn::StartActive, a) == StepView::Ask(
            seq![Effect::Say(Message::Introduction), Effect::Say(Message::SeasonBegins)],
            Query::CachedGames,
            Turn::StartCachedGames,
        ),
        next_step(Turn::GameResultsWeek, Answer::Week(Some(w))) == ready_with(
            seq![Effect::ShowGameResults(w)],
        ),
        next_step(Turn::GameResultsWeek, Answer::Week(None)) == ready_with(
            seq![Effect::Say(Message::StandingsUnavailable)],
        ),
        is_yes(a) ==> next_step(Turn::StopSeasonAdmin, a) == StepView::Done(
            seq![Effect::Say(Message::StopConfirmation)],
            Dialogue::Stop(StopState),
        ),
        !is_yes(a) ==> next_step(Turn::StopSeasonAdmin, a) == ready_with(
            seq![Effect::Say(Message::OnlyAdminsStopSeason)],
        ),
        next_step(Turn::SageSent, Answer::Sent(true)) == ready_with(Seq::<Effect>::empty()),
        next_step(Turn::SageSent, Answer::Sent(false)) == ready_with(
            seq![Effect::Say(Message::GifUnavailable)],
        ),
{
}

/// The turns of a new chat, of the confirmation of the end of a season and of
/// the choice of a week.
pub proof fn law_other_turn_steps(a: Answer, end: bool, max: i32, requested: Option<i32>)
    ensures
        next_step(Turn::SetupConnect, a) == StepView::Ask(
            Seq::<Effect>::empty(),
            Query::ChatIsKnown,
            Turn::SetupKnown,
        ),
        next_step(Turn::SetupKnown, a) == ready_with(
            if is_yes(a) {
                seq![Effect::ReportSetup]
            } else {
                seq![Effect::RegisterChat, Effect::ReportSetup]
            },
        ),
        next_step(Turn::StopConnect(end), Answer::Connected(true)) == StepView::Ask(
            Seq::<Effect>::empty(),
            Query::SenderIsAdmin,
            Turn::StopAdmin(end),
        ),
        !is_yes(a) ==> next_step(Turn::StopAdmin(end), a) == ready_with(
            seq![Effect::Say(Message::OnlyAdminsStopChat)],
        ),
        is_yes(a) && end ==> next_step(Turn::StopAdmin(end), a) == ready_with(
            seq![
                Effect::ShowWeekRankings(-1i32),
                Effect::ShowCompleteRankings,
                Effect::ShowAllBetsSeason,
                Effect::RemoveChat,
                Effect::Say(Message::SeasonEnded),
            ],
        ),
        is_yes(a) && !end ==> next_step(Turn::StopAdmin(end), a) == ready_with(
            seq![Effect::Say(Message::SeasonContinues)],
        ),
        next_step(Turn::WeekConnect(max, requested), Answer::Connected(true)) == ready_with(
            match requested {
                Some(w) => if 1 <= w <= max {
                    seq![Effect::ShowWeekRankings(w)]
                } else {
                    seq![Effect::Say(Message::WeekNotPlayed)]
                },
                None => seq![Effect::Say(Message::InvalidNumber)],
            },
        ),
{
}

/// How a turn begins: every text message first reaches for the database,
/// carrying what the text says for the chat's state; a message without text
/// leaves the chat as it is.
pub proof fn law_turns_begin(d: Dialogue, text: Seq<char>)
    ensures
        first_step(d, None) == StepView::Done(Seq::<Effect>::empty(), d),
        first_step(d, Some(text)) == StepView::Ask(
            Seq::<Effect>::empty(),
            Query::ConnectDatabase,
            match d {
                Dialogue::Setup(_) => Turn::SetupConnect,
                Dialogue::Ready(_) => Turn::ReadyConnect(command_of(text)),
                Dialogue::Stop(_) => Turn::StopConnect(text == "/end_my_season"@),
                Dialogue::WeekInput(w) => Turn::WeekConnect(
                    w.max_week_number,
                    if text.len() > 0 && text[0] == '/' {
                        match parse_i32_spec(text.drop_first()) {
                            Some(v) => Some(v as i32),
                            None => None,
                        }
                    } else {
                        Some(-1i32)
                    },
                ),
            },
        ),
{
}

/// How a number is read: an optional `+` or `-` before the digits of an
/// `i32`; an empty text, a lone sign, or any other character gives nothing.
pub proof fn law_numbers_are_read(n: i32, s: Seq<char>, c: char)
    ensures
        parse_i32_spec(decimal(n as int)) == Some(n as int),
        n >= 0 ==> parse_i32_spec(seq!['+'] + decimal(n as int)) == Some(n as int),
        parse_i32_spec(Seq::<char>::empty()) is None,
        parse_i32_spec(seq!['-']) is None,
        parse_i32_spec(seq!['+']) is None,
        char_digit(c) is None ==> parse_i32_spec(decimal(n as int).push(c)) is None,
{
    law_decimal_reads_back(n);
    let m: nat = if n >= 0 { n as nat } else { (-(n as int)) as nat };
    lemma_digits_denote(m);
    if n >= 0 {
        let t = seq!['+'] + decimal(n as int);
        assert(t.drop_first() =~= decimal(n as int));
    }
    let u = decimal(n as int).push(c);
    let body = unsigned_part(u);
    if n >= 0 {
        assert(decimal(n as int) == digits(m));
        assert(u[0] == digits(m)[0]);
        assert(body == u);
    } else {
        assert(decimal(n as int) == seq!['-'] + digits(m));
        assert(u.len() >= 2);
    }
    assert(body.len() > 0);
    assert(body.last() == c);
    if char_digit(c) is None {
        assert(!all_digits(body)) by {
            assert(char_digit(body[body.len() - 1]) is None);
        }
    }
}

/// The bet a poll option stands for: the away team for the first, the home
/// team for the second, none for any other.
pub proof fn law_poll_options(o: int)
    ensures
        side_of_option(0) == Some(BetSide::Away),
        side_of_option(1) == Some(BetSide::Home),
        o != 0 && o != 1 ==> side_of_option(o) is None,
{
}

/// A new player's record: a missing field takes its default.
pub proof fn law_new_player_defaults(s: Option<String>, d: Seq<char>)
    ensures
        s matches Some(v) ==> or_default(s, d) == v@,
        s is None ==> or_default(s, d) == d,
{
}

/// The instant whose date is sought: five hours before the reading, moved
/// by whole days of 86400 seconds, backwards for the past.
pub proof fn law_moved_instant(now: int, days: int)
    ensures
        moved_instant(now, days, false) == now - 18000 + days * 86400,
        moved_instant(now, days, true) == now - 18000 - days * 86400,
        date_format() == "%Y-%m-%d"@,
        east_coast_offset() == 18000,
        date_in_days_in_range(now, days, false) <==> (-8334601228800 <= now <= 8210266876799
            && -8334601228800 <= now - 18000 <= 8210266876799 && -8334601228800 <= now - 18000
            + days * 86400 <= 8210266876799),
{
}

} // verus!
