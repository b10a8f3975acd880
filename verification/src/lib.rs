//! Decoding of captured network frames.
//!
//! A frame is a run of bytes whose link-layer framing may or may not be known.
//! [`packet::RawPacket`] finds where the IP header starts, from a link-layer type
//! or by scanning the frame, and then reads the Ethernet, IP and TCP headers on
//! request. [`types`] holds the header records and their wire layouts, [`wire`]
//! the big-endian readers they are built from, and [`text`] the hexadecimal
//! text in which a header is printed.
pub mod packet;
pub mod text;
pub mod types;
pub mod wire;
