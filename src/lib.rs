//! Telemetry ingestion over a compact CAN-style framing carried on a serial link:
//! the frame codec, the payload field decoder, a sliding-window sample-rate
//! estimator, a bounded per-channel history store and the ingestion step that
//! ties them together.
//!
//! Values stay integral throughout: times are nanoseconds, samples are raw
//! sensor ticks, rates are millihertz. The calibration divisors that turn ticks
//! into physical units are part of `TelemetryConfig`.
mod codec;
mod config;
mod dlc;
mod error;
mod fields;
mod history;
mod ingest;
mod port;
mod rate;
mod window;

pub use codec::{
    decode_frame, decoded_frame, decoded_header, encode_frame, encoded_frame, frame_header,
    header_value, le16, lemma_decode_encode, lemma_encode_masks_id, lemma_every_index_decodes,
    parse_header, CanFrame, FrameHeader, HEADER_LEN, ID_MASK,
};
pub use config::{Divisor, TelemetryConfig};
pub use dlc::{dlc_size, lemma_dlc_table, CanDlc};
pub use error::ProtocolError;
pub use fields::{
    field_offset, field_value, le24_at, le_i16_at, unpack_fields, FIELD_COUNT, PAYLOAD_LEN,
    WIDE_FIELDS_END,
};
pub use history::{
    channel_value, lemma_append_full, lemma_channels_in_step, TelemetryHistory, TelemetryRow,
    ACCEL_CHANNELS, CHANNEL_COUNT, DEFAULT_HISTORY_CAPACITY, GYRO_CHANNELS, PRESSURE_CHANNELS,
};
pub use ingest::{ingest_frame, process_frame, row_of_payload, sample_from_payload, TELEMETRY_ID};
pub use port::{
    match_count, port_matches, port_matches_spec, select_port, DeviceQuery, PortCandidate,
};
pub use rate::{
    arrival_gap, interval_sum, lemma_steady_window, window_rate, RateEstimator,
    DEFAULT_RATE_WINDOW, NANOS_MILLIHERTZ,
};
pub use window::{bounded_push, push_bounded};
