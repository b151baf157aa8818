//! Draws a small grayscale image into the contribution calendar of a
//! repository: one commit per unit of intensity, on the day that the pixel
//! stands for.

pub mod builder;
pub mod calendar;
pub mod decoder;
pub mod error;
pub mod history;
pub mod repository;
pub mod text;
pub mod tiler;
