pub mod key_to_bytes;
pub mod color;
pub mod status;
pub mod gitstatus;
pub mod members;
pub mod workspaces;
