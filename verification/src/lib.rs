//! A procedurally built garden diorama with a free-flying camera.
//!
//! The library holds the deterministic core of the program: the camera
//! controller (mouse-look, movement, scroll zoom), the scene rotator, the
//! procedural texture rules, the material table and the static scene
//! catalog. All quantities are fixed-point integers (millidegrees,
//! milliunits, microunits, microradians), so every rule is exact and
//! machine-checkable. Windowing, rendering and input polling belong to the
//! host engine and stay outside.

pub mod input;
pub mod materials;
pub mod player;
pub mod scene;
pub mod texture;
pub mod trig;
