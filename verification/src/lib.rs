//! A thin layer over a native window system.
//!
//! The library holds what a program decides before and after it calls the
//! system: how colours are packed, what a font, a window class and a window
//! are asked for, which controls a paint cycle concerns and what they draw,
//! and which instance belongs to which window handle. The calls themselves
//! are left to the program: it hands the library plain values and carries
//! out what the library answers.

pub mod colors;
pub mod controls;
pub mod dispatch;
pub mod font;
pub mod geometry;
pub mod message;
pub mod ml;
pub mod window;
