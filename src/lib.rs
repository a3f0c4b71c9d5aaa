//! The game-mode state machine of a small 2D game and the description of
//! the UI panels that each mode shows.
//!
//! `state` holds the modes, the triggers that switch between them and the
//! controller that owns the current mode; `ui` holds the data-only UI tree;
//! `screens` maps a mode to the tree that should be on screen.
pub mod state;
pub mod ui;
pub mod screens;
