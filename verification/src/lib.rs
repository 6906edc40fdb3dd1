//! Real-time audio transport: wire framing, duplicate filtering, sample
//! codecs and the jitter buffer that sits between network and playback.

pub mod audio;
pub mod config;
pub mod device;
pub mod jitter;
pub mod monitor;
pub mod opus;
pub mod packet;
pub mod receive;
pub mod sequence;
pub mod transmit;
pub mod wire;

pub use config::{AudioConfig, USE_BETA_PACKET_PACER};
pub use packet::{add_packet_id, add_signature, ID_SIZE, SIGNATURE_SIZE};
