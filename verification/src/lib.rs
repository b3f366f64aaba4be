//! A real-time starfield simulation core: particles drift toward the viewer,
//! are recycled at the near plane, and are projected to screen space with
//! perspective scaling and depth-based shading.
//!
//! All distances are fixed-point integers: depths carry [`conf::FP`] units per
//! world unit, screen coordinates carry [`conf::COORD`] units per pixel.

pub mod conf;
pub mod driver;
pub mod events;
pub mod place;
pub mod project;
pub mod star;
pub mod store;

pub use conf::Config;
pub use conf::FP;
