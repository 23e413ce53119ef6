//! A bounded counter, the inventory record, with the transitions that keep
//! `current <= total`, its snapshot encoding, and the command rules of the
//! key-value store that hosts it.

pub mod commands;
pub mod methods;
pub mod types;
