//! USB Device Firmware Upgrade (DFU 1.1) for a microcontroller that
//! re-programs its own flash: the state machines of the class, and the
//! engine that writes an image to a flash of sectors and seals it.
//!
//! From the leaves up:
//!
//! * `layout`: where the flash, the application region and the manifest
//!   are, and how the contents of the flash are spoken of.
//! * `sector`: the erase geometry.
//! * `flash`: the controller as the engine needs it; `ram_flash`: one in
//!   memory.
//! * `memory`: the engine. It starts one operation at a time and checks
//!   it once it has ended.
//! * `manifest`: the record that seals an image, and the check that
//!   decides whether the flash holds an image that can run.
//! * `program`: the writing of one image, step by step.
//! * `dfu_mode`: the driver that the DFU mode class asks to do the work.
//! * `protocol`: requests, states and status codes of DFU 1.1.
//! * `mode` and `runtime`: the state machines of the two variants of the
//!   class.
//! * `trace`: the message that a panic leaves behind, and the trace
//!   buffer.

pub mod dfu_mode;
pub mod flash;
pub mod layout;
pub mod manifest;
pub mod memory;
pub mod mode;
pub mod program;
pub mod protocol;
pub mod ram_flash;
pub mod runtime;
pub mod sector;
pub mod trace;
