//! Bridge between a decompiler plugin and the host application that loads it.
//!
//! The host hands the plugin one callback. Every request of the plugin goes
//! through it as an operation code, two integers and an optional narrow-text
//! payload; the answer is an optional wide-text buffer.

pub mod bridge;
pub mod entry;
pub mod marshal;
pub mod opcode;

pub use bridge::{Bridge, Lifecycle};
pub use entry::{VBDecompilerPluginAuthor, VBDecompilerPluginLoad, VBDecompilerPluginName};
pub use marshal::{decode, encode, terminator_index};
pub use opcode::VlType;
