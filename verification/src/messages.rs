//! The texts the bot answers with in a chat.

use vstd::prelude::*;
use crate::numbers::{decimal, push_decimal};

verus! {

/// A reply the bot sends to the chat it is talking to.
#[derive(PartialEq, Eq, Structural, Clone, Copy, Debug)]
pub enum Message {
    /// An inactive chat is told how to begin.
    SendStart,
    /// `/start` in a chat whose season already runs.
    AlreadyStarted,
    /// The rules of the game, sent when a season begins.
    Introduction,
    /// Sent right after the rules.
    SeasonBegins,
    /// The current betting week could not be looked up.
    StandingsUnavailable,
    /// Asks an admin to confirm the end of the season.
    StopConfirmation,
    /// `/stop_season` from someone who is not an admin.
    OnlyAdminsStopSeason,
    /// `/week_standings` while only the first week has been played.
    SingleWeekPlayed,
    /// Offers a command for each week played so far, up to the given week.
    WeekChoice(i32),
    /// The animation of `/sage` could not be sent.
    GifUnavailable,
    /// The list of commands.
    Help,
    /// A non-admin answered the confirmation to end the season.
    OnlyAdminsStopChat,
    /// The season was ended.
    SeasonEnded,
    /// The confirmation to end the season was not given.
    SeasonContinues,
    /// A week number outside the weeks played.
    WeekNotPlayed,
    /// A week choice that is no number.
    InvalidNumber,
    /// Announces the season standings of `/rankings`.
    Rank,
}

/// The commands offered for weeks `1..=n`, each as `/` and the week number
/// followed by three tabs.
pub open spec fn week_options(n: int) -> Seq<char>
    decreases n,
{
    if n <= 0 {
        Seq::<char>::empty()
    } else {
        week_options(n - 1) + "/"@ + decimal(n) + "\t\t\t"@
    }
}

/// The text of each reply.
pub open spec fn text_of_message(m: Message) -> Seq<char> {
    match m {
        Message::SendStart => "Send /start to begin your season!"@,
        Message::AlreadyStarted => "Looks like you've started your season already!"@,
        Message::Introduction => r#"
BasketballBettingBot sends you 11 NBA games to bet on each week, 10 good ones and one battle between the supreme tank commanders. 
The one who gets the most games right in a week gets one point.
You play against the other members of your group.
The overall winner is the one with the most weekly wins (/full_standings) or the one with the most correct bets overall (/all_bets). Your Call.

To get a list of all commands the bot understands, send /help
"#@,
        Message::SeasonBegins => "Your season begins now!"@,
        Message::StandingsUnavailable => "Sorry, could not send standings right now!"@,
        Message::StopConfirmation => "Send /end_my_season to end the season.\n
Afterwards you will get the standings of this week and the complete results table.\n
YOU CAN'T UNDO THIS ACTION AND ALL YOUR BETS AND RESULTS ARE LOST!\n
Send /continue to go on!"@,
        Message::OnlyAdminsStopSeason => "Only the group admins can stop the season!"@,
        Message::SingleWeekPlayed => "You haven't played more than one week yet!\nHere are the standings for that week:"@,
        Message::WeekChoice(n) => "Click on the week that you want to show the results for!\n"@ + week_options(n as int),
        Message::GifUnavailable => "Sorry, could not send the GIF, try again later!"@,
        Message::Help => r#"
BasketballBettingBot sends you 11 NBA games to bet on each week, 10 good ones and one battle between the supreme tank commanders. 
The one who gets the most games right in a week gets one point.
You play against the other members of your group.
The overall winner is the one with the most weekly wins (/full_standings) or the one with the most correct bets overall (/all_bets). Your Call.

Results are updated live during the games. 

/standings 
-> Show standings for the ongoing week

/full_standings 
-> Show standings for the whole season

/all_bets 
-> Show fraction of correct bets for the whole season 
(Alternative to weekly standings)

/week_standings 
-> Show standings for a specified week

/sage 
-> Cleanse the chat from toxic energy

/stop_season 
-> End the betting season and receive final standings
THIS CAN'T BE UNDONE!


"#@,
        Message::OnlyAdminsStopChat => "Only the group admins can stop the chat!"@,
        Message::SeasonEnded => "SEASON ENDED"@,
        Message::SeasonContinues => "The season continues!"@,
        Message::WeekNotPlayed => "You haven't played that week number yet!"@,
        Message::InvalidNumber => "Please enter a valid number"@,
        Message::Rank => "RANK"@,
    }
}

/// Appends the week commands for weeks `1..=n` to `out`.
fn push_week_options(out: &mut String, n: i32)
    ensures
        final(out)@ == old(out)@ + week_options(n as int),
{
    let mut week: i32 = 0;
    while week < n
        invariant
            0 <= week,
            n <= 0 ==> week == 0,
            n > 0 ==> week <= n,
            out@ == old(out)@ + week_options(week as int),
        decreases n - week,
    {
        week = week + 1;
        out.append("/");
        push_decimal(out, week as i64);
        out.append("\t\t\t");
        proof {
            assert(out@ =~= old(out)@ + week_options(week as int));
        }
    }
    proof {
        if n <= 0 {
            assert(week_options(n as int) =~= Seq::<char>::empty());
            assert(out@ =~= old(out)@ + week_options(n as int));
        }
    }
}

/// The text of a reply.
pub fn message_text(m: Message) -> (r: String)
    ensures
        r@ == text_of_message(m),
{
    match m {
        Message::SendStart => String::from_str("Send /start to begin your season!"),
        Message::AlreadyStarted => String::from_str("Looks like you've started your season already!"),
        Message::Introduction => String::from_str(r#"
BasketballBettingBot sends you 11 NBA games to bet on each week, 10 good ones and one battle between the supreme tank commanders. 
The one who gets the most games right in a week gets one point.
You play against the other members of your group.
The overall winner is the one with the most weekly wins (/full_standings) or the one with the most correct bets overall (/all_bets). Your Call.

To get a list of all commands the bot understands, send /help
"#),
        Message::SeasonBegins => String::from_str("Your season begins now!"),
        Message::StandingsUnavailable => String::from_str("Sorry, could not send standings right now!"),
        Message::StopConfirmation => String::from_str("Send /end_my_season to end the season.\n
Afterwards you will get the standings of this week and the complete results table.\n
YOU CAN'T UNDO THIS ACTION AND ALL YOUR BETS AND RESULTS ARE LOST!\n
Send /continue to go on!"),
        Message::OnlyAdminsStopSeason => String::from_str("Only the group admins can stop the season!"),
        Message::SingleWeekPlayed => String::from_str("You haven't played more than one week yet!\nHere are the standings for that week:"),
        Message::WeekChoice(n) => {
            let mut out = String::from_str("Click on the week that you want to show the results for!\n");
            push_week_options(&mut out, n);
            out
        },
        Message::GifUnavailable => String::from_str("Sorry, could not send the GIF, try again later!"),
        Message::Help => String::from_str(r#"
BasketballBettingBot sends you 11 NBA games to bet on each week, 10 good ones and one battle between the supreme tank commanders. 
The one who gets the most games right in a week gets one point.
You play against the other members of your group.
The overall winner is the one with the most weekly wins (/full_standings) or the one with the most correct bets overall (/all_bets). Your Call.

Results are updated live during the games. 

/standings 
-> Show standings for the ongoing week

/full_standings 
-> Show standings for the whole season

/all_bets 
-> Show fraction of correct bets for the whole season 
(Alternative to weekly standings)

/week_standings 
-> Show standings for a specified week

/sage 
-> Cleanse the chat from toxic energy

/stop_season 
-> End the betting season and receive final standings
THIS CAN'T BE UNDONE!


"#),
        Message::OnlyAdminsStopChat => String::from_str("Only the group admins can stop the chat!"),
        Message::SeasonEnded => String::from_str("SEASON ENDED"),
        Message::SeasonContinues => String::from_str("The season continues!"),
        Message::WeekNotPlayed => String::from_str("You haven't played that week number yet!"),
        Message::InvalidNumber => String::from_str("Please enter a valid number"),
        Message::Rank => String::from_str("RANK"),
    }
}

} // verus!
