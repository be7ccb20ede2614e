//! The data device of a Wayland seat: the negotiation of drag'n'drop actions
//! and the selection (copy/paste) that a seat holds, with the answers given to
//! requests for the selection's contents.

pub mod dnd_action;
pub mod selection;
pub mod handler;
