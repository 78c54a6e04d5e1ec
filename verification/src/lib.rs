//! Host-side model of a VMware SVGA-II display adapter: the register file, the
//! command FIFO shared with the guest, the command decoder and the mailbox that
//! carries finished frames to the embedder.

pub mod chip;
pub mod constants;
pub mod ffi;
pub mod fifo_processor;
pub mod graphic;
pub mod mailbox;
pub mod ref_or_box;
pub mod shared_mem;
