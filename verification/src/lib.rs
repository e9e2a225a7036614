//! SoftNpu: management message definitions, the switch's packet framing,
//! the administration tool's table encodings and the provisioning logic of
//! the NPU zone and NPU VM tools, with their contracts.

pub mod config;
pub mod bytes;
pub mod admin;
pub mod dump_text;
pub mod protocol;
pub mod mgmt;
pub mod uart;
pub mod switch;
pub mod text;
pub mod artifacts;
pub mod dendrite;
pub mod npuzone;
pub mod p9;
