//! The smoke run: a fixed scenario that takes the engine through every kind of
//! attempt, on deterministic fixtures, and marks each milestone.

pub mod fixture;
pub mod healthy;
pub mod run;
pub mod script;
pub mod storage;
pub mod world;
