//! Input handling and per-tick planning for an orbit camera, together with the
//! integer layout rules of the instanced scene it looks at.
//!
//! The camera's vector arithmetic is single-precision floating point and stays
//! with the caller: this crate decides which moves a tick makes, and the
//! caller carries them out.
pub mod controller;
pub mod layout;
pub mod mesh;
pub mod scene;
