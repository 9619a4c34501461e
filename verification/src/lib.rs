//! A source-address packet filter: a frame classifier and the blocklist it consults.

pub mod action;
pub mod blocklist;
pub mod firewall;
pub mod frame;
pub mod headers;
pub mod seed;

pub use crate::action::Decision;
pub use crate::blocklist::{Blocklist, Marker, StoreError, BLOCKLIST_MAX_ENTRIES};
pub use crate::firewall::{block_ip, try_xdp_firewall, xdp_firewall};
pub use crate::frame::{ptr_at, FrameBuffer, Truncated};
