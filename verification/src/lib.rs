//! The state of a board-inspection configuration editor and the writer of its
//! configuration file.
//!
//! A [`record_set::RecordSet`] holds what the user has typed: the descriptor of
//! the board and one row per component type. [`serializer`] turns a snapshot of
//! it into the persisted configuration and its JSON text. [`editor`] maps the
//! events of the user interface onto the record set, and [`download`] is a
//! small progress-tracking state machine.

pub mod coercion;
pub mod download;
pub mod editor;
pub mod json;
pub mod record_set;
pub mod serializer;
