//! A minimal interactive real-time loop: one colored square ("player") on a
//! 2-D canvas, moved by directional intents and grown by a trigger intent,
//! decaying back to its resting size one unit per frame.
//!
//! The library holds everything that can be stated and proved: the
//! application state with its invariant, the translation of discrete key
//! intents into state changes, the per-frame decay step, and the computation
//! of the frame's draw commands. Opening a window, reading raw key codes and
//! painting the commands are left to the surrounding program.

pub mod frame;
pub mod render;
pub mod state;
