//! Decisions of a daemon that runs shell commands when a hardware switch
//! (laptop lid, tablet mode) changes state.
//!
//! The daemon itself opens devices, polls, and starts processes. What it
//! decides is decided here: with which access a device is opened ([`gate`]),
//! which event is a switch transition ([`switch`]), which command a
//! transition runs ([`config`]) and how ([`command`]), what a sequence of
//! events runs ([`plan`]), and what the loop does next ([`dispatch`]).
//! [`run`] holds what is true of every run of the loop.

pub mod command;
pub mod config;
pub mod dispatch;
pub mod gate;
pub mod plan;
pub mod run;
pub mod switch;
