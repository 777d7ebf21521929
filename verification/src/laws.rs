//! Properties of the library as a whole, proved over the specifications that
//! the functions' contracts use.

use vstd::prelude::*;
use crate::numbers::{decimal, digits, parse_i32_spec, unsigned_part, lemma_digits_denote};
use crate::commands::{Command, command_of, is_end_confirmation};
use crate::dialogue::{
    Answer, Dialogue, Effect, Query, StepView, StopState, Turn, WeekInputState, finish, first_step,
    is_yes, next_step, no_effects, pending_query, ready,
};
use crate::messages::Message;
use crate::polls::{
    BetSide, PollAnswer, PollEffect, PollQuery, PollStepView, PollTurn, first_poll_step,
    next_poll_step, poll_admissible, user_step_effects,
};
use crate::dates::{day_shift, east_coast_date_in_days, east_coast_today};
use crate::rankings::{RankingEntry, ranking_line, rankings_text};

verus! {

/// A number that the bot writes is read back as that number.
pub proof fn law_decimal_reads_back(n: i32)
    ensures
        parse_i32_spec(decimal(n as int)) == Some(n as int),
{
    if n >= 0 {
        lemma_digits_denote(n as nat);
        assert(unsigned_part(decimal(n as int)) == digits(n as nat));
    } else {
        let m = (-n) as nat;
        lemma_digits_denote(m);
        let s = decimal(n as int);
        assert(s[0] == '-');
        assert(s.drop_first() =~= digits(m));
        assert(unsigned_part(s) == digits(m));
    }
}

/// How far a turn is from its end: every step that asks a question moves the
/// turn to a position of lower rank, so a turn ends after at most seven steps.
pub open spec fn turn_rank(turn: Turn) -> nat {
    match turn {
        Turn::SetupConnect => 2,
        Turn::SetupKnown => 1,
        Turn::ReadyConnect(_) => 6,
        Turn::ReadyKnown(_) => 5,
        Turn::ReadyActive(_) => 4,
        Turn::StartActive => 3,
        Turn::StartCachedGames => 2,
        Turn::StartFetchedGames => 1,
        Turn::GameResultsWeek => 1,
        Turn::StopSeasonAdmin => 1,
        Turn::WeekStandingsWeek => 1,
        Turn::SageSent => 1,
        Turn::StopConnect(_) => 2,
        Turn::StopAdmin(_) => 1,
        Turn::WeekConnect(_, _) => 1,
    }
}

/// Every turn ends: its first step stands at rank at most six, and each
/// later step either ends the turn or lowers the rank.
pub proof fn law_turns_end(dialogue: Dialogue, text: Option<Seq<char>>, turn: Turn, a: Answer)
    ensures
        first_step(dialogue, text) matches StepView::Ask(_, _, t) ==> turn_rank(t) <= 6,
        next_step(turn, a) matches StepView::Ask(_, _, t) ==> turn_rank(t) < turn_rank(turn),
{
}

/// Each step asks the question that the position it moves to waits for.
pub proof fn law_steps_ask_what_they_wait_for(dialogue: Dialogue, text: Option<Seq<char>>, turn: Turn, a: Answer)
    ensures
        first_step(dialogue, text) matches StepView::Ask(_, q, t) ==> q == pending_query(t),
        next_step(turn, a) matches StepView::Ask(_, q, t) ==> q == pending_query(t),
{
}

/// A message without text changes nothing.
pub proof fn law_textless_message_changes_nothing(dialogue: Dialogue)
    ensures
        first_step(dialogue, None) == StepView::Done(no_effects(), dialogue),
{
}

/// When the database cannot be reached, a turn in a chat that has been set
/// up ends at once, silently, and the chat waits for commands.
pub proof fn law_no_database_ends_turn(turn: Turn)
    requires
        turn is ReadyConnect || turn is StopConnect || turn is WeekConnect,
    ensures
        next_step(turn, Answer::Connected(false)) == finish(no_effects()),
{
}

/// A chat whose season does not run is only reminded to send `/start`,
/// whatever else it sends.
pub proof fn law_inactive_chat_is_reminded(c: Command, a: Answer)
    requires
        c != Command::Start,
        !is_yes(a),
    ensures
        next_step(Turn::ReadyActive(c), a) == finish(seq![Effect::Say(Message::SendStart)]),
{
}

/// After a turn a chat waits for commands, except that an admin's
/// `/stop_season` leads to the confirmation of the end, and `/week_standings`
/// with more (or fewer) than one week played leads to the choice of a week.
pub proof fn law_turns_return_to_ready(turn: Turn, a: Answer)
    ensures
        next_step(turn, a) matches StepView::Done(_, d) ==> {
            ||| d == ready()
            ||| turn == Turn::StopSeasonAdmin && is_yes(a) && d == Dialogue::Stop(StopState)
            ||| turn == Turn::WeekStandingsWeek && (a matches Answer::Week(Some(w)) && w != 1
                && d == Dialogue::WeekInput(WeekInputState { max_week_number: w }))
        },
{
}

/// What a whole turn does when its questions get `answers`, in order: all
/// its effects and the chat's next state; `None` when the answers are too
/// few or too many for the turn.
pub open spec fn run_from(step: StepView, answers: Seq<Answer>) -> Option<(Seq<Effect>, Dialogue)>
    decreases answers.len(),
{
    match step {
        StepView::Done(e, d) => if answers.len() == 0 {
            Some((e, d))
        } else {
            None
        },
        StepView::Ask(e, _, t) => if answers.len() == 0 {
            None
        } else {
            match run_from(next_step(t, answers[0]), answers.drop_first()) {
                Some((rest, d)) => Some((e + rest, d)),
                None => None,
            }
        },
    }
}

/// A whole turn for the text message `text` in a chat in state `dialogue`.
pub open spec fn run_turn(dialogue: Dialogue, text: Seq<char>, answers: Seq<Answer>) -> Option<
    (Seq<Effect>, Dialogue),
> {
    run_from(first_step(dialogue, Some(text)), answers)
}

/// After any turn a chat waits for commands, with two exceptions. It waits
/// for the confirmation of the end only after `/stop_season` in a waiting
/// chat, with the database reached, the season running and the sender an
/// admin. It waits for a week choice only after `/week_standings` in a
/// waiting chat, with the database reached, the season running and the
/// current week (which is then the last week offered) other than 1.
pub proof fn law_turn_outcomes(
    dialogue: Dialogue,
    text: Seq<char>,
    answers: Seq<Answer>,
    effects: Seq<Effect>,
    next: Dialogue,
)
    requires
        run_turn(dialogue, text, answers) == Some((effects, next)),
    ensures
        ({
        ||| next == ready()
        ||| {
            &&& next == Dialogue::Stop(StopState)
            &&& dialogue is Ready
            &&& command_of(text) == Command::StopSeason
            &&& answers.len() == 4
            &&& answers[0] == Answer::Connected(true)
            &&& is_yes(answers[2])
            &&& is_yes(answers[3])
        }
        ||| {
            &&& next is WeekInput
            &&& dialogue is Ready
            &&& command_of(text) == Command::WeekStandings
            &&& answers.len() == 4
            &&& answers[0] == Answer::Connected(true)
            &&& is_yes(answers[2])
            &&& answers[3] == Answer::Week(Some(next->WeekInput_0.max_week_number))
            &&& next->WeekInput_0.max_week_number != 1
        }
        }),
{
    reveal_with_fuel(run_from, 8);
}

/// The effects of a step itself.
pub open spec fn step_effects(step: StepView) -> Seq<Effect> {
    match step {
        StepView::Ask(e, _, _) => e,
        StepView::Done(e, _) => e,
    }
}

/// A turn that stands outside the end-of-season confirmation never removes
/// the chat, whatever the answers.
proof fn lemma_no_removal(step: StepView, answers: Seq<Answer>)
    requires
        !step_effects(step).contains(Effect::RemoveChat),
        step matches StepView::Ask(_, _, t) ==> !(t is StopConnect) && !(t is StopAdmin),
    ensures
        run_from(step, answers) matches Some((e, _)) ==> !e.contains(Effect::RemoveChat),
    decreases answers.len(),
{
    if let StepView::Ask(e, _, t) = step {
        if answers.len() > 0 {
            let nx = next_step(t, answers[0]);
            law_only_confirming_admins_end_seasons(t, answers[0], ready(), Seq::empty(), false);
            law_only_confirming_admins_end_seasons(t, answers[0], ready(), Seq::empty(), true);
            if step_effects(nx).contains(Effect::RemoveChat) {
                let k = choose|k: int| 0 <= k < step_effects(nx).len() && step_effects(nx)[k] == Effect::RemoveChat;
                assert(step_effects(nx)[k] == Effect::RemoveChat);
            }
            lemma_no_removal(nx, answers.drop_first());
            if let Some((rest, d)) = run_from(nx, answers.drop_first()) {
                assert(run_from(step, answers) == Some((e + rest, d)));
                assert forall|k: int| 0 <= k < (e + rest).len() implies (e + rest)[k]
                    != Effect::RemoveChat by {
                    if k < e.len() {
                        assert((e + rest)[k] == e[k]);
                    } else {
                        assert((e + rest)[k] == rest[k - e.len()]);
                    }
                }
            }
        }
    }
}

/// In a whole turn a chat is removed only when it was asked to confirm the
/// end of its season, the text is `/end_my_season`, the database was reached
/// and the sender is an admin.
pub proof fn law_turn_removes_only_confirmed_seasons(
    dialogue: Dialogue,
    text: Seq<char>,
    answers: Seq<Answer>,
    effects: Seq<Effect>,
    next: Dialogue,
)
    requires
        run_turn(dialogue, text, answers) == Some((effects, next)),
        effects.contains(Effect::RemoveChat),
    ensures
        dialogue is Stop,
        is_end_confirmation(text),
        answers == seq![Answer::Connected(true), Answer::Flag(Some(true))],
{
    let first = first_step(dialogue, Some(text));
    if !(dialogue is Stop) {
        assert(!step_effects(first).contains(Effect::RemoveChat));
        lemma_no_removal(first, answers);
    } else {
        reveal_with_fuel(run_from, 3);
        let i = choose|i: int| 0 <= i < effects.len() && effects[i] == Effect::RemoveChat;
        assert(effects[i] == Effect::RemoveChat);
        assert(answers.len() >= 1);
        if answers[0] != Answer::Connected(true) {
            assert(effects.len() == 0);
        }
        assert(answers.len() >= 2);
        let end = is_end_confirmation(text);
        if !is_yes(answers[1]) || !end {
            assert(effects =~= step_effects(next_step(Turn::StopAdmin(end), answers[1])));
        }
        assert(answers.drop_first().drop_first().len() == 0);
        assert(answers =~= seq![Answer::Connected(true), Answer::Flag(Some(true))]);
    }
}

/// A season is removed only by an admin who confirmed the end with
/// `/end_my_season`: removing a chat happens only at the admin check of a
/// turn that began with that text, on a yes.
pub proof fn law_only_confirming_admins_end_seasons(
    turn: Turn,
    a: Answer,
    dialogue: Dialogue,
    text: Seq<char>,
    end: bool,
)
    ensures
        next_step(turn, a) matches StepView::Done(effects, _) ==> (effects.contains(
            Effect::RemoveChat,
        ) ==> turn == Turn::StopAdmin(true) && is_yes(a)),
        next_step(turn, a) matches StepView::Ask(_, _, t) ==> (t == Turn::StopAdmin(end)
            ==> turn == Turn::StopConnect(end)),
        first_step(dialogue, Some(text)) matches StepView::Ask(_, _, t) ==> (t
            == Turn::StopConnect(end) ==> dialogue is Stop && end == is_end_confirmation(text)),
{
    if let StepView::Done(effects, _) = next_step(turn, a) {
        if effects.contains(Effect::RemoveChat) {
            let i = choose|i: int| 0 <= i < effects.len() && effects[i] == Effect::RemoveChat;
            assert(effects[i] == Effect::RemoveChat);
        }
    }
}

/// Standings of a chosen week are posted only for a week that was offered.
pub proof fn law_chosen_week_was_offered(max: i32, requested: Option<i32>, a: Answer, w: i32)
    ensures
        next_step(Turn::WeekConnect(max, requested), a) matches StepView::Done(effects, _) ==> (
        effects.contains(Effect::ShowWeekRankings(w)) ==> 1 <= w <= max),
{
    if let StepView::Done(effects, _) = next_step(Turn::WeekConnect(max, requested), a) {
        if effects.contains(Effect::ShowWeekRankings(w)) {
            let i = choose|i: int| 0 <= i < effects.len() && effects[i] == Effect::ShowWeekRankings(w);
            assert(effects[i] == Effect::ShowWeekRankings(w));
        }
    }
}

/// Each week the bot offers, sent back as offered (`/` and its number),
/// gets the standings of that week.
pub proof fn law_offered_week_is_shown(max: i32, w: i32)
    requires
        1 <= w <= max,
    ensures
        first_step(
            Dialogue::WeekInput(WeekInputState { max_week_number: max }),
            Some("/"@ + decimal(w as int)),
        ) == StepView::Ask(no_effects(), Query::ConnectDatabase, Turn::WeekConnect(max, Some(w))),
        next_step(Turn::WeekConnect(max, Some(w)), Answer::Connected(true)) == finish(
            seq![Effect::ShowWeekRankings(w)],
        ),
{
    reveal_strlit("/");
    let t = "/"@ + decimal(w as int);
    assert(t[0] == '/');
    assert(t.drop_first() =~= decimal(w as int));
    law_decimal_reads_back(w);
}

/// A command addressed to the bot by its username means what the plain
/// command means.
pub proof fn law_addressed_commands_mean_the_same()
    ensures
        command_of("/start"@ + "@BasketballBettingBot"@) == command_of("/start"@),
        command_of("/standings"@ + "@BasketballBettingBot"@) == command_of("/standings"@),
        command_of("/full_standings"@ + "@BasketballBettingBot"@) == command_of("/full_standings"@),
        command_of("/all_bets"@ + "@BasketballBettingBot"@) == command_of("/all_bets"@),
        command_of("/game_results"@ + "@BasketballBettingBot"@) == command_of("/game_results"@),
        command_of("/stop_season"@ + "@BasketballBettingBot"@) == command_of("/stop_season"@),
        command_of("/week_standings"@ + "@BasketballBettingBot"@) == command_of("/week_standings"@),
        command_of("/sage"@ + "@BasketballBettingBot"@) == command_of("/sage"@),
        command_of("/help"@ + "@BasketballBettingBot"@) == command_of("/help"@),
{
    reveal_strlit("/start");
    reveal_strlit("/standings");
    reveal_strlit("/full_standings");
    reveal_strlit("/all_bets");
    reveal_strlit("/game_results");
    reveal_strlit("/stop_season");
    reveal_strlit("/week_standings");
    reveal_strlit("/sage");
    reveal_strlit("/help");
    reveal_strlit("@BasketballBettingBot");
    assert(("/start"@ + "@BasketballBettingBot"@).len() == 27);
    assert(("/standings"@ + "@BasketballBettingBot"@).len() == 31);
    assert(("/full_standings"@ + "@BasketballBettingBot"@).len() == 36);
    assert(("/all_bets"@ + "@BasketballBettingBot"@).len() == 30);
    assert(("/game_results"@ + "@BasketballBettingBot"@).len() == 34);
    assert(("/stop_season"@ + "@BasketballBettingBot"@).len() == 33);
    assert(("/week_standings"@ + "@BasketballBettingBot"@).len() == 36);
    assert(("/sage"@ + "@BasketballBettingBot"@).len() == 26);
    assert(("/help"@ + "@BasketballBettingBot"@).len() == 26);
    assert("/full_standings"@[1] != "/week_standings"@[1]);
    assert(("/full_standings"@ + "@BasketballBettingBot"@)[1] != ("/week_standings"@ + "@BasketballBettingBot"@)[1]);
    assert("/sage"@[1] != "/help"@[1]);
    assert(("/sage"@ + "@BasketballBettingBot"@)[1] != ("/help"@ + "@BasketballBettingBot"@)[1]);
}

/// `/rankings` in a chat whose season runs is answered with "RANK" and the
/// season standings.
pub proof fn law_rankings_command(a: Answer)
    requires
        is_yes(a),
    ensures
        command_of("/rankings"@) == Command::Rankings,
        next_step(Turn::ReadyActive(command_of("/rankings"@)), a) == finish(
            seq![Effect::Note(Message::Rank), Effect::ShowCompleteRankings],
        ),
{
    reveal_strlit("/rankings");
    reveal_strlit("/start");
    reveal_strlit("/standings");
    reveal_strlit("/full_standings");
    reveal_strlit("/all_bets");
    reveal_strlit("/game_results");
    reveal_strlit("/stop_season");
    reveal_strlit("/week_standings");
    reveal_strlit("/sage");
    reveal_strlit("/help");
    reveal_strlit("@BasketballBettingBot");
    assert("/rankings"@[1] != "/all_bets"@[1]);
}

/// An answer to a poll that the bot did not send records nothing.
pub proof fn law_foreign_poll_records_nothing(option: Option<i32>)
    ensures
        next_poll_step(PollTurn::CheckPoll { option }, PollAnswer::Known(false)) == PollStepView::Done(
            Seq::<PollEffect>::empty(),
        ),
{
}

/// How far the handling of a poll answer is from its end.
pub open spec fn poll_turn_rank(turn: PollTurn) -> nat {
    match turn {
        PollTurn::CheckPoll { .. } => 4,
        PollTurn::FindTarget { .. } => 3,
        PollTurn::CheckUser { .. } => 2,
        PollTurn::FindTeam { .. } => 1,
    }
}

/// The handling of a poll answer ends: each question lowers the rank.
pub proof fn law_poll_handling_ends(turn: PollTurn, a: PollAnswer)
    ensures
        next_poll_step(turn, a) matches PollStepView::Ask(_, _, t) ==> poll_turn_rank(t) < poll_turn_rank(turn),
{
}

/// A member is made a player only if they are not one, and their bet goes to
/// the team that their first option names: the away team for the first
/// option, the home team for the second. Any other choice (or none) is no
/// bet: no team is looked up for it, and all that is done for it is what
/// `user_effects` gives, making a new member a player.
pub proof fn law_bet_follows_first_option(
    options: Seq<i32>,
    chat_id: i64,
    game_id: i32,
    known_user: bool,
    team_id: i32,
)
    ensures
        ({
            let option = if options.len() > 0 { Some(options[0]) } else { None };
            let added = if known_user {
                Seq::<PollEffect>::empty()
            } else {
                seq![PollEffect::AddUser { chat_id }]
            };
            let check = PollTurn::CheckUser { option, chat_id, game_id };
            &&& first_poll_step(options) == PollStepView::Ask(
                Seq::<PollEffect>::empty(),
                PollQuery::PollIsKnown,
                PollTurn::CheckPoll { option },
            )
            &&& next_poll_step(PollTurn::CheckPoll { option }, PollAnswer::Known(true))
                == PollStepView::Ask(
                Seq::<PollEffect>::empty(),
                PollQuery::PollTarget,
                PollTurn::FindTarget { option },
            )
            &&& next_poll_step(PollTurn::FindTarget { option }, PollAnswer::Target { chat_id, game_id })
                == PollStepView::Ask(Seq::<PollEffect>::empty(), PollQuery::UserIsKnown, check)
            &&& option == Some(0i32) ==> next_poll_step(check, PollAnswer::Known(known_user))
                == PollStepView::Ask(
                added,
                PollQuery::TeamOf { game_id, side: BetSide::Away },
                PollTurn::FindTeam { chat_id, game_id },
            )
            &&& option == Some(1i32) ==> next_poll_step(check, PollAnswer::Known(known_user))
                == PollStepView::Ask(
                added,
                PollQuery::TeamOf { game_id, side: BetSide::Home },
                PollTurn::FindTeam { chat_id, game_id },
            )
            &&& option != Some(0i32) && option != Some(1i32) ==> !poll_admissible(
                check,
                PollAnswer::Known(known_user),
            ) && user_step_effects(known_user, chat_id) == added
            &&& next_poll_step(PollTurn::FindTeam { chat_id, game_id }, PollAnswer::Team(team_id))
                == PollStepView::Done(seq![PollEffect::AddBet { game_id, chat_id, team_id }])
        }),
{
}

/// The date zero days from today is today's date.
pub proof fn law_zero_days_is_today(now: int, past: bool)
    ensures
        east_coast_date_in_days(now, 0, past) == east_coast_today(now),
{
    assert(day_shift(0, past) == 0);
}

/// Going `days` into the past is going `-days` into the future.
pub proof fn law_past_is_negative_future(now: int, days: int)
    ensures
        east_coast_date_in_days(now, days, true) == east_coast_date_in_days(now, -days, false),
{
    assert(day_shift(days, true) == day_shift(-days, false)) by (nonlinear_arith);
}

/// For any instant from 1970 to the year 30000 and up to a century of days
/// either way, the dates lie in chrono's range: the answer is the date chrono
/// reads back, never a range error.
pub proof fn law_realistic_dates_are_in_range(now: int, days: int, past: bool)
    requires
        0 <= now <= 884_541_340_800,
        -36_525 <= days <= 36_525,
    ensures
        east_coast_today(now) == crate::dates::date_of(now - 18000),
        east_coast_date_in_days(now, days, past) == crate::dates::date_of(
            now - 18000 + day_shift(days, past),
        ),
{
    assert(-36_525 * 86400 <= day_shift(days, past) <= 36_525 * 86400) by (nonlinear_arith)
        requires
            -36_525 <= days <= 36_525,
            day_shift(days, past) == days * 86400 || day_shift(days, past) == -(days * 86400),
    ;
}

/// The standings of the first players are the beginning of the standings of
/// all: a player's rank and line depend only on the players above.
pub proof fn law_standings_extend(entries: Seq<RankingEntry>, k: int)
    requires
        0 <= k <= entries.len(),
    ensures
        rankings_text(entries.take(k)).is_prefix_of(rankings_text(entries)),
    decreases entries.len(),
{
    if k == entries.len() {
        assert(entries.take(k) =~= entries);
    } else {
        law_standings_extend(entries.drop_last(), k);
        assert(entries.drop_last().take(k) =~= entries.take(k));
        let a = rankings_text(entries.take(k));
        let b = rankings_text(entries.drop_last());
        let c = rankings_text(entries);
        assert(c == b + ranking_line(entries.len() as int, entries.last()));
        assert forall|i: int| 0 <= i < a.len() implies a[i] == c[i] by {
            assert(a[i] == b[i]);
        }
    }
}

} // verus!
