//! The records that the APIs exchange as JSON.

pub mod is_04;
