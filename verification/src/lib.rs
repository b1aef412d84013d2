//! Verified core of a two-player chess application built on a distributed
//! hash table: the chess game rules glue, the invitation and profile entries,
//! and the step machines that drive each public zome call.

pub mod engine;
pub mod host;
pub mod invitation;
pub mod user;
pub mod game_chess;
pub mod chess_game;
pub mod invite_flow;
pub mod chess_zome;
pub mod game_zome;
