//! The conversation a chat has with the bot. Each chat is in one of four
//! states; every text message is one turn, which may have to look things up
//! (the database, Telegram) before it knows what to do. A turn is run as a
//! series of steps: the caller starts it with `begin_turn`, then, as long as a
//! step asks a question, performs the step's effects in order, answers the
//! question and calls `advance`; the last step names the chat's next state.

use vstd::prelude::*;
use crate::commands::{
    Command, command_of, parse_command, is_end_confirmation, confirms_end_of_season,
    requested_week, parse_requested_week,
};
use crate::messages::Message;

verus! {

/// A chat that has not been greeted yet.
#[derive(PartialEq, Eq, Structural, Clone, Copy, Debug)]
pub struct SetupState;

/// A chat waiting for commands.
#[derive(PartialEq, Eq, Structural, Clone, Copy, Debug)]
pub struct ReadyState;

/// A chat whose admin was asked to confirm the end of the season.
#[derive(PartialEq, Eq, Structural, Clone, Copy, Debug)]
pub struct StopState;

/// A chat that was offered the weeks `1..=max_week_number` to pick from.
#[derive(PartialEq, Eq, Structural, Clone, Copy, Debug)]
pub struct WeekInputState {
    pub max_week_number: i32,
}

/// The state of a chat's conversation with the bot.
#[derive(PartialEq, Eq, Structural, Clone, Copy, Debug)]
pub enum Dialogue {
    Setup(SetupState),
    Ready(ReadyState),
    Stop(StopState),
    WeekInput(WeekInputState),
}

impl Default for Dialogue {
    /// A new chat starts in the setup state.
    fn default() -> (d: Self)
        ensures
            d == Dialogue::Setup(SetupState),
    {
        Dialogue::Setup(SetupState)
    }
}

/// A question a step puts to the caller.
#[derive(PartialEq, Eq, Structural, Clone, Copy, Debug)]
pub enum Query {
    /// Connect to the database. Answered by `Connected`.
    ConnectDatabase,
    /// Is the chat registered in the database? Answered by `Flag`.
    ChatIsKnown,
    /// Is the chat's season running? Answered by `Flag`.
    ChatIsActive,
    /// Is the sender an administrator of the chat? Answered by `Flag`.
    SenderIsAdmin,
    /// The number of the chat's current betting week. Answered by `Week`.
    BetWeek,
    /// The games held in the local cache. Answered by `Games`.
    CachedGames,
    /// `count` games from the database, played between the East Coast dates
    /// `first_day` and `last_day` days after today. Answered by `Games`.
    UpcomingGames { count: i32, first_day: i64, last_day: i64 },
    /// Send the animation of `/sage` to the chat. Answered by `Sent`.
    SendSageAnimation,
}

/// What the caller found out.
#[derive(PartialEq, Eq, Structural, Clone, Copy, Debug)]
pub enum Answer {
    /// Whether the connection was made.
    Connected(bool),
    /// The yes or no asked for; `None` when it could not be looked up.
    Flag(Option<bool>),
    /// The week number; `None` when it could not be looked up.
    Week(Option<i32>),
    /// How many games were obtained; `None` when they could not be obtained.
    Games(Option<usize>),
    /// Whether the animation was delivered.
    Sent(bool),
}

/// Something the caller does for a step, in the order the step lists them.
#[derive(PartialEq, Eq, Structural, Clone, Copy, Debug)]
pub enum Effect {
    /// Send the message to the chat. If sending fails the turn ends there
    /// with that error.
    Say(Message),
    /// Send the message to the chat; a failed send is ignored.
    Note(Message),
    /// Register the chat in the database, unless it is there already.
    RegisterChat,
    /// Post the standings of the given week; `-1` is the ongoing week.
    ShowWeekRankings(i32),
    /// Post the standings of the whole season.
    ShowCompleteRankings,
    /// Post the share of correct bets over the season.
    ShowAllBetsSeason,
    /// Post the game results of the given week.
    ShowGameResults(i32),
    /// Send a poll for each of the games obtained last.
    SendPolls,
    /// Mark the chat's season as running or not.
    SetChatActive(bool),
    /// Remove the chat with its bets and results.
    RemoveChat,
    /// Tell the chat who wrote and who administers it.
    ReportSetup,
}

/// Where a turn stands, between two steps.
#[derive(PartialEq, Eq, Structural, Clone, Copy, Debug)]
pub enum Turn {
    SetupConnect,
    SetupKnown,
    ReadyConnect(Command),
    ReadyKnown(Command),
    ReadyActive(Command),
    StartActive,
    StartCachedGames,
    StartFetchedGames,
    GameResultsWeek,
    StopSeasonAdmin,
    WeekStandingsWeek,
    SageSent,
    /// Whether the text confirmed the end of the season.
    StopConnect(bool),
    StopAdmin(bool),
    /// The last week offered, and the week asked for (`None`: no number).
    WeekConnect(i32, Option<i32>),
}

/// A step of a turn: effects to perform, then either a question and the
/// turn's new position, or the chat's next state.
pub enum Step {
    Ask(Vec<Effect>, Query, Turn),
    Done(Vec<Effect>, Dialogue),
}

/// What a step is, with its effects as a sequence.
pub enum StepView {
    Ask(Seq<Effect>, Query, Turn),
    Done(Seq<Effect>, Dialogue),
}

impl View for Step {
    type V = StepView;

    open spec fn view(&self) -> StepView {
        match self {
            Step::Ask(e, q, t) => StepView::Ask(e@, *q, *t),
            Step::Done(e, d) => StepView::Done(e@, *d),
        }
    }
}

pub open spec fn ready() -> Dialogue {
    Dialogue::Ready(ReadyState)
}

pub open spec fn finish(effects: Seq<Effect>) -> StepView {
    StepView::Done(effects, ready())
}

pub open spec fn no_effects() -> Seq<Effect> {
    Seq::<Effect>::empty()
}

/// The question that a turn standing at `turn` waits to have answered.
pub open spec fn pending_query(turn: Turn) -> Query {
    match turn {
        Turn::SetupConnect => Query::ConnectDatabase,
        Turn::SetupKnown => Query::ChatIsKnown,
        Turn::ReadyConnect(_) => Query::ConnectDatabase,
        Turn::ReadyKnown(_) => Query::ChatIsKnown,
        Turn::ReadyActive(_) => Query::ChatIsActive,
        Turn::StartActive => Query::ChatIsActive,
        Turn::StartCachedGames => Query::CachedGames,
        Turn::StartFetchedGames => upcoming_games(),
        Turn::GameResultsWeek => Query::BetWeek,
        Turn::StopSeasonAdmin => Query::SenderIsAdmin,
        Turn::WeekStandingsWeek => Query::BetWeek,
        Turn::SageSent => Query::SendSageAnimation,
        Turn::StopConnect(_) => Query::ConnectDatabase,
        Turn::StopAdmin(_) => Query::SenderIsAdmin,
        Turn::WeekConnect(_, _) => Query::ConnectDatabase,
    }
}

/// The games looked up when a season begins with too few cached games: ten
/// games of the coming week, from tomorrow to seven days from today.
pub open spec fn upcoming_games() -> Query {
    Query::UpcomingGames { count: 10i32, first_day: 1i64, last_day: 7i64 }
}

/// The answer is of the kind the question asks for.
pub open spec fn answers(q: Query, a: Answer) -> bool {
    match q {
        Query::ConnectDatabase => a is Connected,
        Query::ChatIsKnown | Query::ChatIsActive | Query::SenderIsAdmin => a is Flag,
        Query::BetWeek => a is Week,
        Query::CachedGames | Query::UpcomingGames { .. } => a is Games,
        Query::SendSageAnimation => a is Sent,
    }
}

/// The answers a turn at `turn` can go on with: one of the kind asked for. A
/// new chat cannot be set up without the database.
pub open spec fn admissible(turn: Turn, a: Answer) -> bool {
    &&& answers(pending_query(turn), a)
    &&& turn == Turn::SetupConnect ==> a == Answer::Connected(true)
}

/// A yes, counting a failed lookup as a no.
pub open spec fn is_yes(a: Answer) -> bool {
    a == Answer::Flag(Some(true))
}

/// The number of games obtained, counting a failure as none.
pub open spec fn game_count(a: Answer) -> int {
    match a {
        Answer::Games(Some(n)) => n as int,
        _ => 0,
    }
}

/// The first step of a turn: for a text message in the chat's state; a
/// message without text leaves the chat as it is.
pub open spec fn first_step(dialogue: Dialogue, text: Option<Seq<char>>) -> StepView {
    match text {
        None => StepView::Done(no_effects(), dialogue),
        Some(t) => match dialogue {
            Dialogue::Setup(_) => StepView::Ask(no_effects(), Query::ConnectDatabase, Turn::SetupConnect),
            Dialogue::Ready(_) => StepView::Ask(
                no_effects(),
                Query::ConnectDatabase,
                Turn::ReadyConnect(command_of(t)),
            ),
            Dialogue::Stop(_) => StepView::Ask(
                no_effects(),
                Query::ConnectDatabase,
                Turn::StopConnect(is_end_confirmation(t)),
            ),
            Dialogue::WeekInput(w) => StepView::Ask(
                no_effects(),
                Query::ConnectDatabase,
                Turn::WeekConnect(
                    w.max_week_number,
                    match requested_week(t) {
                        Some(v) => Some(v as i32),
                        None => None,
                    },
                ),
            ),
        },
    }
}

/// What a command does in a chat whose season runs (and what `/start` does in
/// any chat).
pub open spec fn command_step(c: Command) -> StepView {
    match c {
        Command::Start => StepView::Ask(no_effects(), Query::ChatIsActive, Turn::StartActive),
        Command::Standings => finish(seq![Effect::ShowWeekRankings(-1i32)]),
        Command::FullStandings => finish(seq![Effect::ShowCompleteRankings]),
        Command::AllBets => finish(seq![Effect::ShowAllBetsSeason]),
        Command::GameResults => StepView::Ask(no_effects(), Query::BetWeek, Turn::GameResultsWeek),
        Command::StopSeason => StepView::Ask(no_effects(), Query::SenderIsAdmin, Turn::StopSeasonAdmin),
        Command::WeekStandings => StepView::Ask(no_effects(), Query::BetWeek, Turn::WeekStandingsWeek),
        Command::Sage => StepView::Ask(no_effects(), Query::SendSageAnimation, Turn::SageSent),
        Command::Help => finish(seq![Effect::Say(Message::Help)]),
        Command::Rankings => finish(seq![Effect::Note(Message::Rank), Effect::ShowCompleteRankings]),
        Command::Other => finish(no_effects()),
    }
}

/// The effects that begin a season once games are at hand.
pub open spec fn season_start_effects() -> Seq<Effect> {
    seq![Effect::SendPolls, Effect::SetChatActive(true)]
}

/// The effects that end a season.
pub open spec fn season_end_effects() -> Seq<Effect> {
    seq![
        Effect::ShowWeekRankings(-1i32),
        Effect::ShowCompleteRankings,
        Effect::ShowAllBetsSeason,
        Effect::RemoveChat,
        Effect::Say(Message::SeasonEnded),
    ]
}

/// The step a turn standing at `turn` takes on the answer `a`.
pub open spec fn next_step(turn: Turn, a: Answer) -> StepView {
    match turn {
        Turn::SetupConnect => StepView::Ask(no_effects(), Query::ChatIsKnown, Turn::SetupKnown),
        Turn::SetupKnown => if is_yes(a) {
            finish(seq![Effect::ReportSetup])
        } else {
            finish(seq![Effect::RegisterChat, Effect::ReportSetup])
        },
        Turn::ReadyConnect(c) => if a == Answer::Connected(true) {
            StepView::Ask(no_effects(), Query::ChatIsKnown, Turn::ReadyKnown(c))
        } else {
            finish(no_effects())
        },
        Turn::ReadyKnown(c) => StepView::Ask(
            if is_yes(a) {
                no_effects()
            } else {
                seq![Effect::RegisterChat]
            },
            Query::ChatIsActive,
            Turn::ReadyActive(c),
        ),
        Turn::ReadyActive(c) => if !is_yes(a) && c != Command::Start {
            finish(seq![Effect::Say(Message::SendStart)])
        } else {
            command_step(c)
        },
        Turn::StartActive => if is_yes(a) {
            finish(seq![Effect::Say(Message::AlreadyStarted)])
        } else {
            StepView::Ask(
                seq![Effect::Say(Message::Introduction), Effect::Say(Message::SeasonBegins)],
                Query::CachedGames,
                Turn::StartCachedGames,
            )
        },
        Turn::StartCachedGames => if game_count(a) < 11 {
            StepView::Ask(no_effects(), upcoming_games(), Turn::StartFetchedGames)
        } else {
            finish(season_start_effects())
        },
        Turn::StartFetchedGames => finish(season_start_effects()),
        Turn::GameResultsWeek => match a {
            Answer::Week(Some(w)) => finish(seq![Effect::ShowGameResults(w)]),
            _ => finish(seq![Effect::Say(Message::StandingsUnavailable)]),
        },
        Turn::StopSeasonAdmin => if is_yes(a) {
            StepView::Done(seq![Effect::Say(Message::StopConfirmation)], Dialogue::Stop(StopState))
        } else {
            finish(seq![Effect::Say(Message::OnlyAdminsStopSeason)])
        },
        Turn::WeekStandingsWeek => match a {
            Answer::Week(Some(w)) => if w == 1 {
                finish(seq![Effect::Say(Message::SingleWeekPlayed), Effect::ShowWeekRankings(1i32)])
            } else {
                StepView::Done(
                    seq![Effect::Say(Message::WeekChoice(w))],
                    Dialogue::WeekInput(WeekInputState { max_week_number: w }),
                )
            },
            _ => finish(seq![Effect::Say(Message::StandingsUnavailable)]),
        },
        Turn::SageSent => if a == Answer::Sent(true) {
            finish(no_effects())
        } else {
            finish(seq![Effect::Say(Message::GifUnavailable)])
        },
        Turn::StopConnect(end) => if a == Answer::Connected(true) {
            StepView::Ask(no_effects(), Query::SenderIsAdmin, Turn::StopAdmin(end))
        } else {
            finish(no_effects())
        },
        Turn::StopAdmin(end) => if !is_yes(a) {
            finish(seq![Effect::Say(Message::OnlyAdminsStopChat)])
        } else if end {
            finish(season_end_effects())
        } else {
            finish(seq![Effect::Say(Message::SeasonContinues)])
        },
        Turn::WeekConnect(max, requested) => if a != Answer::Connected(true) {
            finish(no_effects())
        } else {
            match requested {
                Some(w) => if 1 <= w && w <= max {
                    finish(seq![Effect::ShowWeekRankings(w)])
                } else {
                    finish(seq![Effect::Say(Message::WeekNotPlayed)])
                },
                None => finish(seq![Effect::Say(Message::InvalidNumber)]),
            }
        },
    }
}

fn effects_none() -> (r: Vec<Effect>)
    ensures
        r@ == no_effects(),
{
    Vec::new()
}

fn effects_one(a: Effect) -> (r: Vec<Effect>)
    ensures
        r@ == seq![a],
{
    let mut v = Vec::new();
    v.push(a);
    v
}

fn effects_two(a: Effect, b: Effect) -> (r: Vec<Effect>)
    ensures
        r@ == seq![a, b],
{
    let mut v = Vec::new();
    v.push(a);
    v.push(b);
    v
}

fn done_ready(effects: Vec<Effect>) -> (s: Step)
    ensures
        s@ == finish(effects@),
{
    Step::Done(effects, Dialogue::Ready(ReadyState))
}

/// Starts a turn for a message of the chat in state `dialogue`; `text` is the
/// message's text, `None` for a message without text.
pub fn begin_turn(dialogue: Dialogue, text: Option<&str>) -> (s: Step)
    ensures
        s@ == first_step(
            dialogue,
            match text {
                Some(t) => Some(t@),
                None => None,
            },
        ),
{
    match text {
        None => Step::Done(effects_none(), dialogue),
        Some(t) => match dialogue {
            Dialogue::Setup(_) => Step::Ask(effects_none(), Query::ConnectDatabase, Turn::SetupConnect),
            Dialogue::Ready(_) => Step::Ask(
                effects_none(),
                Query::ConnectDatabase,
                Turn::ReadyConnect(parse_command(t)),
            ),
            Dialogue::Stop(_) => Step::Ask(
                effects_none(),
                Query::ConnectDatabase,
                Turn::StopConnect(confirms_end_of_season(t)),
            ),
            Dialogue::WeekInput(w) => Step::Ask(
                effects_none(),
                Query::ConnectDatabase,
                Turn::WeekConnect(w.max_week_number, parse_requested_week(t)),
            ),
        },
    }
}

/// What a command does once the chat is known to be allowed to use it.
fn command_effects(c: Command) -> (s: Step)
    ensures
        s@ == command_step(c),
{
    match c {
        Command::Start => Step::Ask(effects_none(), Query::ChatIsActive, Turn::StartActive),
        Command::Standings => done_ready(effects_one(Effect::ShowWeekRankings(-1))),
        Command::FullStandings => done_ready(effects_one(Effect::ShowCompleteRankings)),
        Command::AllBets => done_ready(effects_one(Effect::ShowAllBetsSeason)),
        Command::GameResults => Step::Ask(effects_none(), Query::BetWeek, Turn::GameResultsWeek),
        Command::StopSeason => Step::Ask(effects_none(), Query::SenderIsAdmin, Turn::StopSeasonAdmin),
        Command::WeekStandings => Step::Ask(effects_none(), Query::BetWeek, Turn::WeekStandingsWeek),
        Command::Sage => Step::Ask(effects_none(), Query::SendSageAnimation, Turn::SageSent),
        Command::Help => done_ready(effects_one(Effect::Say(Message::Help))),
        Command::Rankings => done_ready(
            effects_two(Effect::Note(Message::Rank), Effect::ShowCompleteRankings),
        ),
        Command::Other => done_ready(effects_none()),
    }
}

/// The effects that begin a season once games are at hand.
fn start_season() -> (s: Step)
    ensures
        s@ == finish(season_start_effects()),
{
    done_ready(effects_two(Effect::SendPolls, Effect::SetChatActive(true)))
}

/// The effects that end a season.
fn end_season() -> (s: Step)
    ensures
        s@ == finish(season_end_effects()),
{
    let mut v = Vec::new();
    v.push(Effect::ShowWeekRankings(-1));
    v.push(Effect::ShowCompleteRankings);
    v.push(Effect::ShowAllBetsSeason);
    v.push(Effect::RemoveChat);
    v.push(Effect::Say(Message::SeasonEnded));
    proof {
        assert(v@ =~= season_end_effects());
    }
    done_ready(v)
}

/// The next step of a turn standing at `turn`, given the answer to its
/// question.
pub fn advance(turn: Turn, a: Answer) -> (s: Step)
    requires
        admissible(turn, a),
    ensures
        s@ == next_step(turn, a),
{
    let yes = a == Answer::Flag(Some(true));
    let connected = a == Answer::Connected(true);
    match turn {
        Turn::SetupConnect => Step::Ask(effects_none(), Query::ChatIsKnown, Turn::SetupKnown),
        Turn::SetupKnown => if yes {
            done_ready(effects_one(Effect::ReportSetup))
        } else {
            done_ready(effects_two(Effect::RegisterChat, Effect::ReportSetup))
        },
        Turn::ReadyConnect(c) => if connected {
            Step::Ask(effects_none(), Query::ChatIsKnown, Turn::ReadyKnown(c))
        } else {
            done_ready(effects_none())
        },
        Turn::ReadyKnown(c) => {
            let effects = if yes {
                effects_none()
            } else {
                effects_one(Effect::RegisterChat)
            };
            Step::Ask(effects, Query::ChatIsActive, Turn::ReadyActive(c))
        },
        Turn::ReadyActive(c) => if !yes && c != Command::Start {
            done_ready(effects_one(Effect::Say(Message::SendStart)))
        } else {
            command_effects(c)
        },
        Turn::StartActive => if yes {
            done_ready(effects_one(Effect::Say(Message::AlreadyStarted)))
        } else {
            Step::Ask(
                effects_two(Effect::Say(Message::Introduction), Effect::Say(Message::SeasonBegins)),
                Query::CachedGames,
                Turn::StartCachedGames,
            )
        },
        Turn::StartCachedGames => {
            let count: usize = match a {
                Answer::Games(Some(n)) => n,
                _ => 0,
            };
            if count < 11 {
                Step::Ask(
                    effects_none(),
                    Query::UpcomingGames { count: 10, first_day: 1, last_day: 7 },
                    Turn::StartFetchedGames,
                )
            } else {
                start_season()
            }
        },
        Turn::StartFetchedGames => start_season(),
        Turn::GameResultsWeek => match a {
            Answer::Week(Some(w)) => done_ready(effects_one(Effect::ShowGameResults(w))),
            _ => done_ready(effects_one(Effect::Say(Message::StandingsUnavailable))),
        },
        Turn::StopSeasonAdmin => if yes {
            Step::Done(effects_one(Effect::Say(Message::StopConfirmation)), Dialogue::Stop(StopState))
        } else {
            done_ready(effects_one(Effect::Say(Message::OnlyAdminsStopSeason)))
        },
        Turn::WeekStandingsWeek => match a {
            Answer::Week(Some(w)) => if w == 1 {
                done_ready(
                    effects_two(Effect::Say(Message::SingleWeekPlayed), Effect::ShowWeekRankings(1)),
                )
            } else {
                Step::Done(
                    effects_one(Effect::Say(Message::WeekChoice(w))),
                    Dialogue::WeekInput(WeekInputState { max_week_number: w }),
                )
            },
            _ => done_ready(effects_one(Effect::Say(Message::StandingsUnavailable))),
        },
        Turn::SageSent => if a == Answer::Sent(true) {
            done_ready(effects_none())
        } else {
            done_ready(effects_one(Effect::Say(Message::GifUnavailable)))
        },
        Turn::StopConnect(end) => if connected {
            Step::Ask(effects_none(), Query::SenderIsAdmin, Turn::StopAdmin(end))
        } else {
            done_ready(effects_none())
        },
        Turn::StopAdmin(end) => if !yes {
            done_ready(effects_one(Effect::Say(Message::OnlyAdminsStopChat)))
        } else if end {
            end_season()
        } else {
            done_ready(effects_one(Effect::Say(Message::SeasonContinues)))
        },
        Turn::WeekConnect(max, requested) => if !connected {
            done_ready(effects_none())
        } else {
            match requested {
                Some(w) => if 1 <= w && w <= max {
                    done_ready(effects_one(Effect::ShowWeekRankings(w)))
                } else {
                    done_ready(effects_one(Effect::Say(Message::WeekNotPlayed)))
                },
                None => done_ready(effects_one(Effect::Say(Message::InvalidNumber))),
            }
        },
    }
}

} // verus!
