//! A free-flying camera for an interactive 3D viewer, in exact integer arithmetic.
//!
//! Input events arrive at any rate and are buffered by a
//! [`controller::CameraController`]; once per frame the buffered input is
//! integrated into a [`camera::Camera`] over the elapsed time, and the buffers
//! start again from zero. [`state::State`] routes events to the controller and
//! viewport sizes to the [`projection::Projection`]. [`laws`] holds what is
//! proved of several calls in a row.
//!
//! Every quantity is a whole number of a fixed small unit (see [`units`]), so
//! each operation has an exact mathematical meaning and nothing is rounded.
//! Sines, cosines and matrices are the caller's: it hands in the direction of
//! the yaw as a [`camera::Heading`] and builds its matrices from the public
//! fields of camera and projection.

pub mod units;
pub mod camera;
pub mod projection;
pub mod controller;
pub mod state;
pub mod laws;
