//! Codec, broker and client logic for the Samsung HVAC NASA control bus.
//!
//! The bus carries a framed packet protocol. The modules, leaves first:
//!
//! - [`wire`]: big-endian integers.
//! - [`frame`] and [`framing`]: the streaming frame parser with its CRC, the
//!   layout of a frame, and what the parser makes of a frame.
//! - [`packet`], [`reader`], [`writer`], [`parse`], [`serialize`] and
//!   [`round_trip`]: the packet, from and to a frame payload.
//! - [`message`]: the typed messages that are known by name.
//! - [`text`] and [`pretty`]: packets as text for people to read.
//! - [`transport`]: packets on a byte stream.
//! - [`broker`]: who gets a packet that came in, and who is removed.
//! - [`client`]: requests, their replies and retries, and watches.
//! - [`climate`]: the rules of the bridge to a home-automation hub.
//! - [`bounded`]: the fixed-capacity vectors that packets are stored in.

pub mod bounded;
pub mod broker;
pub mod client;
pub mod climate;
pub mod frame;
pub mod framing;
pub mod message;
pub mod packet;
pub mod parse;
pub mod pretty;
pub mod reader;
pub mod round_trip;
pub mod serialize;
pub mod text;
pub mod transport;
pub mod wire;
pub mod writer;
