//! The frame execution core of a real-time renderer that draws one full-screen
//! shader into a resizable window: the decisions of the frame loop, the
//! bookkeeping of the image chain, the input state of a first-person camera and
//! the layout of the per-frame push payload, all on plain values.
//!
//! Nothing here touches a window or a GPU. The program around the library
//! performs each action the loop asks for and reports back what happened.

pub mod camera;
pub mod commands;
pub mod device;
pub mod events;
pub mod geometry;
pub mod input;
pub mod orchestrator;
pub mod single;
pub mod state;
pub mod swapchain;
pub mod uniforms;
