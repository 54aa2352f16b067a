//! A CHIP-8 virtual machine: memory, registers, call stack, timers, keypad and
//! a 64x32 monochrome framebuffer, stepped one instruction per tick.
pub mod instruction;
pub mod model;
pub mod chip;
pub mod entropy;
pub mod laws;
pub mod render;
