//! Core of a live-chat overlay: normalization of raw feed messages into chat
//! records, a bounded buffer that keeps the most recent records, the decisions
//! of one poll cycle, and the rows that the presentation layer draws.

pub mod buffer;
pub mod cycle;
pub mod display;
pub mod record;
