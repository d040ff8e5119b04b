//! A dock engine: layout, hit-testing, animation, interaction and
//! compositing of a horizontal icon dock, verified against its contracts.
//! The only code taken on trust is a handful of calls into outside crates
//! (decoding and resizing images, splitting a command line, lower case),
//! each in a function of its own whose documentation says what is relied on.
//!
//! The engine owns no window and reads no file. A host feeds it with the
//! settings, the items, the bytes of icon files and the pointer's events,
//! and gets back one frame of packed pixels per tick, the place where the
//! dock's window belongs, and what else it is to do: launch an item, show a
//! tooltip, open the context menu, write the settings.
//!
//! Quantities that are not whole numbers (the scales of the icons, the
//! position of the dock on its way, sample positions in an image) are held
//! in 16.16 fixed point, see [`fixed`]; times are in milliseconds.
//!
//! From the leaves up:
//! - [`fixed`], [`color`], [`hex`], [`text`]: arithmetic, pixels, and
//!   colours written as text;
//! - [`config`]: the settings and the items;
//! - [`codec`], [`icon`], [`icon_cache`]: icons from image files;
//! - [`renderer`], [`layout`], [`hit`], [`drag`]: the row and what a point
//!   of it falls on;
//! - [`sample`], [`paint`], [`brush`], [`draw`], [`render`]: the frame;
//! - [`wave`], [`magnify`], [`motion`], [`animate`]: what moves;
//! - [`dock`], [`events`], [`checks`], [`tick`], [`menu`], [`editor`],
//!   [`tray`]: the session and its dealings with the host.

pub mod fixed;
pub mod color;
pub mod hex;
pub mod text;
pub mod config;
pub mod codec;
pub mod icon_cache;
pub mod icon;
pub mod renderer;
pub mod sample;
pub mod paint;
pub mod brush;
pub mod draw;
pub mod layout;
pub mod render;
pub mod hit;
pub mod drag;
pub mod wave;
pub mod magnify;
pub mod motion;
pub mod dock;
pub mod animate;
pub mod checks;
pub mod events;
pub mod tick;
pub mod menu;
pub mod editor;
pub mod tray;
