//! Decision logic of a Telegram bot that runs weekly NBA betting seasons in
//! group chats: the conversation state machine, the handling of poll answers,
//! the texts the bot sends, and the East Coast calendar dates it schedules by.
//! Network, database and Telegram calls are made by the caller, which hands
//! their results to the functions here.

pub mod numbers;
pub mod messages;
pub mod commands;
pub mod rankings;
pub mod error;
pub mod dates;
pub mod dialogue;
pub mod polls;
pub mod chats;
pub mod laws;
pub mod behaviour;
