//! A bot that keeps a session in a simulated world: it spawns a character
//! and answers the invites and trades of one trusted counterpart. The
//! session itself lives outside this library; the decisions made on each
//! tick of it live here.

pub mod character;
pub mod negotiate;
pub mod roster;
pub mod session;
pub mod spawn;
pub mod wait;
