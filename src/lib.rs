//! Host core of a fantasy console: the guest call boundary and its host-API contexts,
//! the deterministic per-tick input records, the deferred render command list, and the
//! save, load and advance steps a rollback session drives.

pub mod audio_context;
pub mod bytes;
pub mod console;
pub mod data_context;
pub mod draw_context;
pub mod frame_rate;
pub mod guest_memory;
pub mod input;
pub mod input_context;
pub mod mouse;
pub mod network;
pub mod pipeline;
pub mod random_context;
pub mod render_pass;
pub mod resolution;
pub mod rom;
pub mod session;
pub mod text_context;
