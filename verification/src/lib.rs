//! Renders a still image as colored blocks in a terminal.
//!
//! The library holds the verified core of the program: the color
//! quantizer that maps true-color samples into the 256-entry terminal
//! palette, the aspect-ratio-preserving fit of an image into a character
//! grid, the frame builder that turns a resampled bitmap into a grid of
//! palette indices, the renderer that lays that grid out as a byte stream
//! of escape sequences, and the controller that decides what each render
//! pass does. Image decoding, resampling, terminal queries and signal
//! handling are outside collaborators; they live in the surrounding
//! program, which hands this library plain values.

pub mod controller;
pub mod fit;
pub mod frame;
pub mod image;
pub mod quantize;
pub mod render;
