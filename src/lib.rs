//! Peripheral hardware of a black-and-white arcade video board: I/O ports
//! with the bit-shift register, edge-triggered sound latches, the rotated and
//! colour-zoned framebuffer, the input buttons and the per-frame scheduler
//! that drives an external 8080 CPU.

pub mod ports;
pub mod video;
pub mod input;
pub mod frame;
pub mod machine;
