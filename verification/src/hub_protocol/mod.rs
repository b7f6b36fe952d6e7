//! Hub extension of the Walkie Textie wire protocol.
//!
//! The hub speaks the stock protocol for everything a node firmware does
//! (LoraTx, RxPacket, GetVersion, Reboot). This module adds the hub-only
//! provisioning and status commands in the reserved id block `0x20..=0x2F`,
//! in frames of the same layout (see [`crate::wire`]).
//!
//! A receiver first tries the stock command parser; when that fails with
//! `ResponseStatus::InvalidCommand` (unknown id) it tries
//! [`codec::parse_command`].
pub mod codec;
pub mod types;
