//! A software triangle rasterizer over Q16.16 fixed-point arithmetic.
//!
//! Every scalar that the pipeline works on (coordinates, normals, colors,
//! depths, matrix entries) is an `i32` that stands for the rational number
//! `raw / 65536`.  All contracts are stated over mathematical integers, so
//! each function says exactly which raw value it returns.
//!
//! The modules, leaves first:
//!
//! * [`fixed`]: scalar arithmetic, rounding down and saturating.
//! * [`vector`]: vectors of two, three and four components, 4x4 matrices.
//! * [`color`]: packing of colors into pixels.
//! * [`framebuffer`]: the color buffer and the depth buffer.
//! * [`texture`]: decoded images and their bilinear sampling.
//! * [`model`]: vertices, meshes, materials and models.
//! * [`projector`]: from model space to the screen.
//! * [`raster`]: edge functions, coverage and interpolation.
//! * [`shader`]: the color of a covered pixel.
//! * [`pipeline`]: the scan of a triangle and the walk over a model.

pub mod color;
pub mod fixed;
pub mod framebuffer;
pub mod model;
pub mod pipeline;
pub mod projector;
pub mod raster;
pub mod shader;
pub mod texture;
pub mod vector;
