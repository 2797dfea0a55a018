//! An icon widget for a component-based web interface.
//!
//! An icon is named by an [`icons::IconName`] and drawn from path data kept for two pixel
//! grids. [`icon::Icon`] turns its [`icon::Props`] into a description of the markup to show:
//! a `span` that holds an `svg` with one `path` per entry of the chosen path data.
pub mod classes;

pub mod handler;

pub mod icon;

pub mod icons;

pub mod intent;

pub mod markup;

pub mod render;

pub mod text;
