//! Platform layer of a small real-time graphics application, modeled over
//! plain values: window event translation, raw keyboard decoding, fullscreen
//! toggling, and the lifecycle of a GPU device and its presentation surface,
//! including recovery from device loss. The operating-system and GPU calls
//! themselves live outside this library; it owns every decision between them.

pub mod error;
pub mod fullscreen;
pub mod graphics;
pub mod input;
pub mod primitives;
pub mod win_str;
pub mod window;
