//! Zip-Zap-Zop: the turn-rotation elimination game, its lobby registry and the
//! decisions of the sessions that lead players from a lobby into a game.

pub mod actor;
pub mod arena;
pub mod channel;
pub mod event;
pub mod game;
pub mod zzz;
