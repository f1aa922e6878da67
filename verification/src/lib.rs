//! Core of a shutdown timer: the text of three duration fields, the
//! countdown they arm, and the moment at which the machine is to be
//! powered off.

pub mod application;
pub mod clock;
pub mod decimal;
pub mod utils;
