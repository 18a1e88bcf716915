//! Scheduling and dispatch core of a reminder and invoice delivery service.
//!
//! Schedules are promoted into queue rows by the promoter and executed by the
//! dispatcher; every state change of both tables goes through this crate.

pub mod text;
pub mod status;
pub mod recurrence;
pub mod request;
pub mod telegram;
pub mod board;
pub mod messages;
pub mod channels;
pub mod verification;
pub mod contacts;
pub mod auth;
pub mod invoice;
pub mod routing;
pub mod admission;
