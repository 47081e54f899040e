//! Kinematics of a sprite that is thrown from a point of a canvas and falls
//! until it leaves the visible area.
//!
//! The crate holds the arithmetic and the lifecycle only. Whoever draws the
//! sprite calls [`ferris::Ferris::at_pointer`] where the pointer goes down
//! and [`ferris::Ferris::update`] once per animation tick, and carries out
//! the [`ferris::Effect`] that each call hands back.
//!
//! [`motion`] is the model that the contracts speak of, with its laws;
//! [`canvas`] holds the sizes and the two coordinate systems.

pub mod canvas;
pub mod ferris;
pub mod motion;
