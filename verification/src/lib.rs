//! cyanotype: the decisions behind an adapter from a media demuxer to
//! per-stream broadcast channels.
//!
//! The library decides which streams of a container are opened and in which
//! table each is kept, where each demuxed packet goes and what is done with
//! it, which streams are flushed and closed at the end of input, and what a
//! stream forwards to its subscribers; each of these decisions is stated in
//! a contract and proved. The media work itself (demuxing and decoding) is
//! done by the caller, which hands plain values in and takes plain values
//! back. The broadcast channel of a stream ([`StreamChannel`]) is a thin
//! handle on an outside channel whose state is shared with every subscriber:
//! its methods carry no contract.

mod demuxer;
mod err;
pub mod streams;
pub use demuxer::{
    BuiltStream, MediaKind, PacketRoute, PacketStep, ShutdownStep, StreamDescriptor, StreamRole,
    StreamTable, SubtitleCodec,
};
pub use err::CyanotypeError;
pub use streams::{
    broadcast_outcome, forwards_frame, prepare_data_packet, DataPacket, StreamChannel,
    CHANNEL_CAPACITY,
};
