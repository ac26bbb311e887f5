//! Legality rules for commands in a turn-based battle on a hexagonal board.
//!
//! [`check::check`] decides, for a snapshot of the battle and one candidate
//! command, whether the command may be carried out, and if not, why not. It
//! only reads the snapshot.
//!
//! - [`map`], [`battle`], [`ability`], [`component`], [`movement`] and
//!   [`command`] hold the plain values: tiles and distances, counters and
//!   weights, abilities, the components of an actor, paths, commands.
//! - [`table`] and [`state`] hold the snapshot: one table for each kind of
//!   component, and the questions about who stands where.
//! - [`rules`] says what the answer to each check is, as a function of what
//!   the snapshot holds.
//! - [`check`] computes the answers, and is proved to agree with [`rules`].
//! - [`theorems`] proves what follows for every snapshot and command.

pub mod ability;
pub mod battle;
pub mod check;
pub mod command;
pub mod component;
pub mod map;
pub mod movement;
pub mod rules;
pub mod state;
pub mod table;
pub mod theorems;
