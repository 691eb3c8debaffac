//! A paginated, scrollable notebook: coordinate frames, page geometry, the
//! camera, cursor hit-testing, and the editor with its text tool.
//!
//! The library holds no window, font or clipboard. Where an operation needs
//! something from the platform it returns a [`platform::Request`] that says
//! what, and takes the platform's answer as a [`platform::Reply`]. What is
//! to be drawn comes as a list of [`platform::DrawCommand`]s.
pub mod rect;
pub mod position;
pub mod ident;
pub mod pages;
pub mod renderer;
pub mod font;
pub mod platform;
pub mod mark;
pub mod editor;
pub mod cursor;
pub mod button;
pub mod menu;
pub mod setup;
pub mod components;
