//! Encoder and decoder for single frames of the UBX binary protocol spoken
//! by u-blox GNSS receivers: a fixed two-byte sync header, raw class and id
//! bytes, a little-endian 16-bit payload length, the payload itself, and a
//! two-byte running checksum over class, id, length and payload.

mod class;
mod error;
pub mod id;
mod ublox;

pub use error::Error;
pub use ublox::{State, Ublox};
pub use ublox::{spec_ck, spec_ck_next, spec_checksum, spec_region, FrameModel};
pub use ublox::{spec_new, spec_run, spec_step, spec_wire};
pub use ublox::{spec_dec, spec_describe, spec_hex, spec_hex_byte, spec_hex_digit};
pub use ublox::lemma_checksum_deterministic;
pub use ublox::lemma_decode_wellformed;
pub use ublox::lemma_encode_decode;
pub use ublox::lemma_new_wellformed;
pub use ublox::lemma_round_trip;
pub use ublox::spec_state_inv;

pub use id::{Id, ACK, AID, CFG, ESF, HNR, INF, LOG, MGA, MON, NAV, RXM, SEC, TIM, UPD};
pub use id::id_of;
pub use id::spec_id_of;
pub use id::lemma_id_byte_inverse;
pub use id::lemma_taxonomy_total;
pub use class::lemma_class_byte_inverse;
pub use class::lemma_class_of_unknown;
pub use class::class_of;
pub use class::spec_class_byte;
pub use class::spec_class_of;
pub use class::Class;
