//! The decisions of a binding over a native windowing and graphics library:
//! which configuration flags a window state holds, which monitor indexes are
//! valid, how text crosses the boundary to the native side and back, how a
//! text is laid out inside a rectangle, and which screen of a game follows
//! which. The calls into the native library themselves are made elsewhere.

pub mod consts;
pub mod error;
pub mod screens;
pub mod text;
pub mod text_box;
pub mod window;
