//! Answers to the bot's polls. Each game of a week is a poll in the chat,
//! whose first option is the away team and whose second is the home team; a
//! member's answer is recorded as a bet on that team, after making the member
//! a player of the chat if needed. Handling an answer is run in steps as a
//! turn of the conversation is: `begin_poll_answer`, then `advance_poll_answer`
//! with each answer until the step is `Done`. An answer whose first option is
//! no bet (a retracted vote, or an option other than the two teams) cannot be
//! recorded: once the member is known to be a player or not, the caller
//! performs `user_effects` and gives up on the answer.

use vstd::prelude::*;

verus! {

/// The team a poll option stands for.
#[derive(PartialEq, Eq, Structural, Clone, Copy, Debug)]
pub enum BetSide {
    Away,
    Home,
}

/// The side of the poll option with the given index: the first option (`0`)
/// is the away team, the second (`1`) the home team, and there is no other.
pub open spec fn side_of_option(option: int) -> Option<BetSide> {
    if option == 0 {
        Some(BetSide::Away)
    } else if option == 1 {
        Some(BetSide::Home)
    } else {
        None
    }
}

/// The side of a poll option; only the two options of a game poll are bets.
pub fn bet_side(option: i32) -> (s: BetSide)
    requires
        option == 0 || option == 1,
    ensures
        side_of_option(option as int) == Some(s),
{
    if option == 0 {
        BetSide::Away
    } else {
        BetSide::Home
    }
}

/// A member as recorded when they first answer a poll.
pub struct NewUser {
    pub id: i64,
    pub first_name: String,
    pub last_name: String,
    pub username: String,
    pub language_code: String,
}

/// The text of an optional field, or the default when it is absent.
pub open spec fn or_default(field: Option<String>, default: Seq<char>) -> Seq<char> {
    match field {
        Some(s) => s@,
        None => default,
    }
}

fn string_or(field: Option<String>, default: &str) -> (r: String)
    ensures
        r@ == or_default(field, default@),
{
    match field {
        Some(s) => s,
        None => String::from_str(default),
    }
}

/// The record of a member who answers a poll: a missing last name or
/// username is empty, a missing language is English (`en`).
pub fn new_user(
    id: i64,
    first_name: String,
    last_name: Option<String>,
    username: Option<String>,
    language_code: Option<String>,
) -> (u: NewUser)
    ensures
        u.id == id,
        u.first_name@ == first_name@,
        u.last_name@ == or_default(last_name, ""@),
        u.username@ == or_default(username, ""@),
        u.language_code@ == or_default(language_code, "en"@),
{
    NewUser {
        id,
        first_name,
        last_name: string_or(last_name, ""),
        username: string_or(username, ""),
        language_code: string_or(language_code, "en"),
    }
}

/// A question about the answered poll or the member who answered.
#[derive(PartialEq, Eq, Structural, Clone, Copy, Debug)]
pub enum PollQuery {
    /// Was the poll sent by the bot (is it in the database)? Answered by `Known`.
    PollIsKnown,
    /// The chat and the game of the poll. Answered by `Target`.
    PollTarget,
    /// Is the member a player already? Answered by `Known`.
    UserIsKnown,
    /// The team that plays the game on the given side. Answered by `Team`.
    TeamOf { game_id: i32, side: BetSide },
}

/// What the caller found out.
#[derive(PartialEq, Eq, Structural, Clone, Copy, Debug)]
pub enum PollAnswer {
    Known(bool),
    Target { chat_id: i64, game_id: i32 },
    Team(i32),
}

/// Something the caller does for a step.
#[derive(PartialEq, Eq, Structural, Clone, Copy, Debug)]
pub enum PollEffect {
    /// Record the member (as `new_user` gives them) as a player of the chat.
    AddUser { chat_id: i64 },
    /// Record the member's bet on the team in the game of the chat's poll.
    AddBet { game_id: i32, chat_id: i64, team_id: i32 },
}

/// Where the handling of a poll answer stands. `option` is the first option
/// the member chose, if any.
#[derive(PartialEq, Eq, Structural, Clone, Copy, Debug)]
pub enum PollTurn {
    CheckPoll { option: Option<i32> },
    FindTarget { option: Option<i32> },
    CheckUser { option: Option<i32>, chat_id: i64, game_id: i32 },
    FindTeam { chat_id: i64, game_id: i32 },
}

/// A step: effects to perform, then a question or the end.
pub enum PollStep {
    Ask(Vec<PollEffect>, PollQuery, PollTurn),
    Done(Vec<PollEffect>),
}

pub enum PollStepView {
    Ask(Seq<PollEffect>, PollQuery, PollTurn),
    Done(Seq<PollEffect>),
}

impl View for PollStep {
    type V = PollStepView;

    open spec fn view(&self) -> PollStepView {
        match self {
            PollStep::Ask(e, q, t) => PollStepView::Ask(e@, *q, *t),
            PollStep::Done(e) => PollStepView::Done(e@),
        }
    }
}

/// The first option names a bet.
pub open spec fn is_bet(option: Option<i32>) -> bool {
    option == Some(0i32) || option == Some(1i32)
}

/// The answer is of the kind the turn waits for, and a bet is only looked up
/// for a first option that names one.
pub open spec fn poll_admissible(turn: PollTurn, a: PollAnswer) -> bool {
    match turn {
        PollTurn::CheckPoll { .. } => a is Known,
        PollTurn::FindTarget { .. } => a is Target,
        PollTurn::CheckUser { option, .. } => a is Known && is_bet(option),
        PollTurn::FindTeam { .. } => a is Team,
    }
}

/// What is done once it is known whether the member is a player already:
/// a new member is made a player of the chat.
pub open spec fn user_step_effects(known_user: bool, chat_id: i64) -> Seq<PollEffect> {
    if known_user {
        Seq::<PollEffect>::empty()
    } else {
        seq![PollEffect::AddUser { chat_id }]
    }
}

/// The effects of learning whether the member is a player already.
pub fn user_effects(known_user: bool, chat_id: i64) -> (r: Vec<PollEffect>)
    ensures
        r@ == user_step_effects(known_user, chat_id),
{
    let mut effects = Vec::new();
    if !known_user {
        effects.push(PollEffect::AddUser { chat_id });
    }
    effects
}

/// The first step for an answer whose chosen options are `options`.
pub open spec fn first_poll_step(options: Seq<i32>) -> PollStepView {
    PollStepView::Ask(
        Seq::<PollEffect>::empty(),
        PollQuery::PollIsKnown,
        PollTurn::CheckPoll { option: if options.len() > 0 { Some(options[0]) } else { None } },
    )
}

/// The step taken at `turn` on the answer `a`.
pub open spec fn next_poll_step(turn: PollTurn, a: PollAnswer) -> PollStepView {
    match turn {
        PollTurn::CheckPoll { option } => if a == PollAnswer::Known(true) {
            PollStepView::Ask(Seq::<PollEffect>::empty(), PollQuery::PollTarget, PollTurn::FindTarget { option })
        } else {
            PollStepView::Done(Seq::<PollEffect>::empty())
        },
        PollTurn::FindTarget { option } => match a {
            PollAnswer::Target { chat_id, game_id } => PollStepView::Ask(
                Seq::<PollEffect>::empty(),
                PollQuery::UserIsKnown,
                PollTurn::CheckUser { option, chat_id, game_id },
            ),
            _ => PollStepView::Done(Seq::<PollEffect>::empty()),
        },
        PollTurn::CheckUser { option, chat_id, game_id } => {
            let effects = user_step_effects(a == PollAnswer::Known(true), chat_id);
            let side = if option == Some(0i32) {
                BetSide::Away
            } else {
                BetSide::Home
            };
            PollStepView::Ask(
                effects,
                PollQuery::TeamOf { game_id, side },
                PollTurn::FindTeam { chat_id, game_id },
            )
        },
        PollTurn::FindTeam { chat_id, game_id } => match a {
            PollAnswer::Team(team_id) => PollStepView::Done(
                seq![PollEffect::AddBet { game_id, chat_id, team_id }],
            ),
            _ => PollStepView::Done(Seq::<PollEffect>::empty()),
        },
    }
}

/// Starts handling an answer whose chosen options are `options`.
pub fn begin_poll_answer(options: &Vec<i32>) -> (s: PollStep)
    ensures
        s@ == first_poll_step(options@),
{
    let option = if options.len() > 0 {
        Some(options[0])
    } else {
        None
    };
    PollStep::Ask(Vec::new(), PollQuery::PollIsKnown, PollTurn::CheckPoll { option })
}

/// The next step of handling a poll answer.
pub fn advance_poll_answer(turn: PollTurn, a: PollAnswer) -> (s: PollStep)
    requires
        poll_admissible(turn, a),
    ensures
        s@ == next_poll_step(turn, a),
{
    match turn {
        PollTurn::CheckPoll { option } => if a == PollAnswer::Known(true) {
            PollStep::Ask(Vec::new(), PollQuery::PollTarget, PollTurn::FindTarget { option })
        } else {
            PollStep::Done(Vec::new())
        },
        PollTurn::FindTarget { option } => match a {
            PollAnswer::Target { chat_id, game_id } => PollStep::Ask(
                Vec::new(),
                PollQuery::UserIsKnown,
                PollTurn::CheckUser { option, chat_id, game_id },
            ),
            _ => PollStep::Done(Vec::new()),
        },
        PollTurn::CheckUser { option, chat_id, game_id } => {
            let effects = user_effects(a == PollAnswer::Known(true), chat_id);
            let first = match option {
                Some(o) => o,
                None => 0,
            };
            PollStep::Ask(
                effects,
                PollQuery::TeamOf { game_id, side: bet_side(first) },
                PollTurn::FindTeam { chat_id, game_id },
            )
        },
        PollTurn::FindTeam { chat_id, game_id } => match a {
            PollAnswer::Team(team_id) => {
                let mut effects = Vec::new();
                effects.push(PollEffect::AddBet { game_id, chat_id, team_id });
                PollStep::Done(effects)
            },
            _ => PollStep::Done(Vec::new()),
        },
    }
}

} // verus!
