//! The command FIFO: the ring reader, the command decoder and the state that
//! the device shares with the thread that drains the ring.

pub mod cmd;
pub mod fifo_reader;
pub mod fifo_state;
