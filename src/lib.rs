//! Keyboard-driven window selection: the decision logic behind a full-screen
//! hint overlay, verified against its contracts.
pub mod frame;
pub mod hints;
pub mod keyboard;
pub mod selection;
pub mod session;
pub mod window;
