//! Bookkeeping core of a small real-time rendering framework: stable handles
//! into flat resource tables, the draw order of a frame, and the word layout
//! of the uniform data that each object uploads.

pub mod bytes;
pub mod handles;
pub mod input;
pub mod mat4;
pub mod obj_pipeline;
pub mod pipeline;
pub mod renderer;
pub mod sdf;
pub mod surface;
pub mod text;
pub mod ui;
pub mod update;
pub mod vertex;
pub mod words;
