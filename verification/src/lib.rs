use vstd::prelude::*;

pub mod cartridge;
pub mod cpu;
pub mod cpu_helpers;
pub mod font;
pub mod display;
pub mod gamepad;
pub mod output;

verus! {

/// Number of addressable bytes of machine memory.
pub const MEMORY_SIZE: usize = 4096;

/// Width of the framebuffer in pixels.
pub const DISPLAY_PIXEL_WIDTH: usize = 64;

/// Height of the framebuffer in pixels.
pub const DISPLAY_PIXEL_HEIGHT: usize = 32;

} // verus!
