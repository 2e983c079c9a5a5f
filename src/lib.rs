//! Image generation tool server: the verified decisions behind generating an
//! image from a prompt, storing it, listing stored images and running the
//! process lifecycle.

pub mod backend;
pub mod listing;
pub mod naming;
pub mod outside;
pub mod supervisor;
pub mod tool;
