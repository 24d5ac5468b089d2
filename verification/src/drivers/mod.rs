//! Device-side structures and the parts of the VirtIO drivers that compute
//! on them.
pub mod virtio;
pub mod input;
pub mod gpu;
