//! The choreography of a short demonstration session on a small e-paper panel:
//! which operation comes when, with which parameters, and what a failure does.
//!
//! `plan` lists every operation in order, and `session::Session` hands them out
//! one at a time, stopping for good at the first one that fails. Operations on
//! the local frame buffer are carried out by `canvas::Canvas`; those on the bus,
//! the control lines and the panel are left to the caller.

mod action;
pub mod canvas;
pub mod plan;
pub mod session;

pub use action::{Action, BusSettings, Caption, FontSize, Glyph, Ink, PinRequest, PinRole, RefreshMode, Rotation};
