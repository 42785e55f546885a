//! The per-stream side: the broadcast channel that every stream feeds, and
//! the decisions of what a stream forwards to it.

mod channel;
mod data;
mod video;

pub use channel::{broadcast_outcome, StreamChannel, CHANNEL_CAPACITY};
pub use data::{
    duration_of_nanos, nanos_to_duration, prepare_data_packet, spec_nanos_to_duration, DataPacket,
};
pub use video::forwards_frame;
