//! A Docker volume plugin whose volumes are LUKS-encrypted disk images, with
//! the keys of the images sealed by a virtual HSM.
pub mod text;
pub mod crypto;
pub mod codec;
pub mod config_json;
pub mod volume;
pub mod plugin;
pub mod luks;
pub mod cloudlock;
pub mod rpc_request;
