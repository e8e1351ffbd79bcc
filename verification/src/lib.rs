//! Wake-on-LAN behind a momentary switch.
//!
//! [`wol::MagicPacket`] lays out the 102-byte wake-up payload for one hardware
//! address and describes the broadcast datagram that carries it.
//! [`switch::DelaySwitch`] is the switch in front of it: setting it yields a
//! burst of such datagrams and keeps the switch "on" for ten seconds.
//! [`shared::SharedSwitch`] puts that switch behind a lock for callers on
//! several threads.
//!
//! The library opens no socket. It says what is to be sent, and the caller
//! sends it.

pub mod shared;
pub mod switch;
pub mod wol;
