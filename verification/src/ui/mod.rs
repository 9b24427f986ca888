//! The browser shell's own logic: what the address and command bars turn
//! input into, the tab list, the engine's tab bookkeeping, the paint
//! scheduling, and pixel conversions.
pub mod engine;
pub mod ids;
pub mod navigation;
pub mod pixels;
pub mod render;
pub mod site;
pub mod tab_strip;
pub mod tabs;
