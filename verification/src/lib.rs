//! An immediate-mode 2D drawing engine that batches geometry.
//!
//! Callers queue rectangles and change the colour or the coordinate frame;
//! the engine gathers consecutive rectangles that share one colour and one
//! transform into a single draw command and hands the finished commands to a
//! backend once per frame.
//!
//! * [`scalar`]: numbers, carried as IEEE 754 bit patterns.
//! * [`arithmetic`]: the rounding operations that the embedding program
//!   supplies.
//! * [`matrix`]: 4×4 matrices.
//! * [`geometry`]: colours, vertices, draw commands.
//! * [`transform`]: the transform register.
//! * [`batch`]: the batching rules as a mathematical state machine, and what
//!   is proved of them.
//! * [`graphics`]: the engine and the backend interface.
//! * [`headless`]: a backend that records what it is given.

pub mod arithmetic;
pub mod batch;
pub mod geometry;
pub mod graphics;
pub mod headless;
pub mod matrix;
pub mod scalar;
pub mod transform;
