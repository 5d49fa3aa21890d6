//! Coordination of a motion stage, an RF source and a pressure regulator:
//! per-device state records, the transitions of their actors, the command
//! façades' optimistic updates and the print orchestrator.
pub mod decimal;
pub mod text;
pub mod actor;
pub mod motion;
pub mod pressure;
pub mod rf;
pub mod job;
pub mod print;
pub mod cache;
pub mod facade;
