# basketball_betting_bot

A Telegram bot that runs weekly NBA betting seasons in group chats: it posts a
poll for each game of the week, records the members' bets, and posts standings.

The library in `src/` holds the bot's decisions, verified with Verus:

- `dialogue`: the conversation of a chat (setup, commands, confirming the end
  of a season, choosing a week) as steps from a state and an answer to the
  next question or the next state, with the effects to perform;
- `polls`: recording an answer to a game poll as a bet on the team it names;
- `commands`, `numbers`: reading commands and week numbers;
- `messages`, `rankings`: the texts the bot sends;
- `dates`: East Coast calendar dates, computed with chrono;
- `chats`, `error`: small helpers and the error type;
- `laws`: properties of the whole, proved.

`app/` is the program around it: configuration, the teloxide dispatcher, the
database queries and the Telegram calls, which it performs when a step asks.
`tests/` runs the library on concrete conversations, polls, texts and dates.

The original program holds two versions of the chat's ready state: an older
one that answers `/rankings` with "RANK" and the season standings, and a
fuller one with the season commands. The dialogue follows the fuller one and
keeps `/rankings` from the older one.

`Cargo.toml` pins `takecell` to 0.1.1, a dependency of teloxide: the newest
takecell needs a newer Rust than the toolchain this crate is built with.
