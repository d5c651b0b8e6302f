//! A redundant slat/flap control computer (SFCC) core: a deterministic
//! control-law engine that turns the pilot's discrete lever position and live
//! flight-condition measurements into a demanded surface angle, together with
//! a bit-exact ARINC 429 status-word codec used to publish that state.

pub mod arinc;
pub mod detent;
pub mod engine;
pub mod lock;
pub mod profile;
pub mod units;
