//! Text to speech behind two engines: the decisions, names and messages of the
//! speech service, free of I/O.

pub mod commands;
pub mod espeak;
pub mod kitten_worker;
pub mod loader;
pub mod neutts_worker;
pub mod paths;
pub mod progress;
pub mod reference;
pub mod speech;
pub mod state;
pub mod text;
pub mod voices;
pub mod wav;
