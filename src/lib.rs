pub mod buffer;
pub mod demux;
pub mod frame;
pub mod types;
