//! A two-state toggle switch: its properties, its checked state, the element
//! tree it renders and the way it answers pointer and keyboard events.
//!
//! The library decides and describes; it performs nothing. A host renders
//! the tree that [`Switch`] returns, feeds the events of the button to
//! [`event::handle`], keeps the [`state::StateSource`] between renders and
//! calls the change callback with the value that a reaction reports.

pub mod event;
pub mod laws;
pub mod node;
pub mod outside;
pub mod state;
pub mod switch;

pub use crate::switch::{Switch, SwitchProps, SwitchThumb, SwitchThumbProps};
