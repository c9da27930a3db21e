pub mod disassembly;
pub mod instruction;
pub mod key_event_queue;
pub mod laws;
pub mod lc3;
pub mod lc3_image;
pub mod word;
