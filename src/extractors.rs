pub mod common;
pub mod squashfs;
