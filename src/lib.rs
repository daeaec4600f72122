//! A polar "tunnel" effect: a procedural XOR texture, distance and angle
//! maps over an oversized mapping space, and a per-frame compositor that
//! samples the texture through the scrolled maps.
pub mod frame;
pub mod image;
pub mod mapping;
pub mod mode;
pub mod report;
pub mod texture;
