//! Geometry construction and software rasterization of a player model.
//!
//! A model is assembled from parts ([`provider`], [`part`]) whose faces
//! sample rectangles of a texture sheet ([`uv`]). A part becomes a
//! primitive, a mesh of vertices and triangle indices ([`primitives`]), and
//! a primitive is drawn into a colour buffer and a depth buffer
//! ([`buffers`]) by the rasterizer ([`raster`], [`triangle`]), which calls
//! the two stages of a shading state for vertices and fragments
//! ([`shader`]).
//!
//! Around that stand the records of a render request and of what it
//! resolves to ([`request`], [`resolver`], [`geyser`], [`ids`]), the
//! settings ([`config`]) and the records of a model project
//! ([`blockbench`]).
//!
//! All lengths, angles, texture coordinates handed to shaders, colours and
//! screen coordinates are fixed-point integers ([`math`]): a stored value
//! `v` stands for the number `v / UNIT`.

pub mod math;
pub mod uv;
pub mod types;
pub mod part;
pub mod provider;
pub mod primitives;
pub mod buffers;
pub mod shader;
pub mod triangle;
pub mod raster;
pub mod ids;
pub mod request;
pub mod resolver;
pub mod geyser;
pub mod config;
pub mod blockbench;
