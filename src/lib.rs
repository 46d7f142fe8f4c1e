//! Whirlwing: window and rendering-context bring-up, engine events, logging and
//! matrix layout, with the native and GPU calls kept at the edge.
//!
//! The bring-up protocol is a machine in [`bootstrap`]: it says which native
//! call to make next and learns each call's outcome, so every ordering rule
//! (a context is released before it is deleted, the throwaway window is gone
//! once the real one is ready) is proved of the machine itself.

pub mod error;
pub mod bootstrap;
pub mod window;
pub mod events;
pub mod log;
pub mod math;
pub mod time;
pub mod text;
