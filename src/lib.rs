//! Input, camera and start-up logic for a small windowed 3-D scene on X11
//! with an OpenGL core-profile context.
//!
//! The library holds every decision the program makes: how raw window-system
//! events are decoded, how they move the camera and the scene transform, in
//! which order the window, context and program are brought up and what is
//! released when a step fails, how the procedural sphere is triangulated and
//! which draw calls each shape issues. Calls into the window system and the
//! graphics driver, and all floating-point matrix work, are made by the
//! program around it.
pub mod event;
pub mod scene;
pub mod setup;
pub mod shape;
pub mod shader;
pub mod transform;
pub mod scenery;
pub mod frame;
