//! The standings table the bot posts: one entry per player, best first.

use vstd::prelude::*;
use crate::numbers::{decimal, push_decimal};

verus! {

/// One player's row of the season standings of a chat, in the order the
/// standings list them.
pub struct RankingEntry {
    pub first_name: String,
    pub last_name: String,
    /// Telegram username, empty when the player has none.
    pub username: String,
    pub points: i64,
}

/// How a username is shown: nothing when there is none, else `@` and the name.
pub open spec fn handle_text(username: Seq<char>) -> Seq<char> {
    if username.len() == 0 {
        Seq::<char>::empty()
    } else {
        "@"@ + username
    }
}

/// The two lines that show a player at a rank.
pub open spec fn ranking_line(rank: int, e: RankingEntry) -> Seq<char> {
    decimal(rank) + ". "@ + e.first_name@ + " "@ + e.last_name@ + " "@ + handle_text(e.username@)
        + "\nPoints: "@ + decimal(e.points as int) + "\n"@
}

/// The standings: the entries in their order, ranked `1, 2, 3, ...`.
pub open spec fn rankings_text(entries: Seq<RankingEntry>) -> Seq<char>
    decreases entries.len(),
{
    if entries.len() == 0 {
        Seq::<char>::empty()
    } else {
        rankings_text(entries.drop_last()) + ranking_line(entries.len() as int, entries.last())
    }
}

/// The standings text for the given entries, best first.
pub fn format_rankings(entries: &Vec<RankingEntry>) -> (r: String)
    requires
        entries.len() <= i32::MAX,
    ensures
        r@ == rankings_text(entries@),
{
    let mut out = String::new();
    let mut rank: i32 = 0;
    let n = entries.len();
    while (rank as usize) < n
        invariant
            0 <= rank <= n,
            n == entries.len(),
            n <= i32::MAX,
            out@ == rankings_text(entries@.take(rank as int)),
        decreases n - rank as usize,
    {
        let e = &entries[rank as usize];
        let ghost before = entries@.take(rank as int);
        rank = rank + 1;
        push_decimal(&mut out, rank as i64);
        out.append(". ");
        out.append(e.first_name.as_str());
        out.append(" ");
        out.append(e.last_name.as_str());
        out.append(" ");
        if !e.username.as_str().is_empty() {
            out.append("@");
            out.append(e.username.as_str());
        }
        out.append("\nPoints: ");
        push_decimal(&mut out, e.points);
        out.append("\n");
        proof {
            let now = entries@.take(rank as int);
            assert(now.drop_last() =~= before);
            assert(now.last() == *e);
            assert(out@ =~= rankings_text(now));
        }
    }
    proof {
        assert(entries@.take(n as int) =~= entries@);
    }
    out
}

} // verus!
