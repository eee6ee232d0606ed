//! Renders decoded CTF trace packets as deterministic, human-readable text
//! lines, one per event.
//!
//! The crate is organised as a pipeline: a numeric formatter turns integers
//! into digit strings in a chosen display base, a field-value formatter
//! renders each decoded field, an event-line composer assembles one output
//! line per event, and a stream driver decides, packet by packet, whether a
//! stream is exhausted or broken.
use vstd::prelude::*;

pub mod decode;
pub mod driver;
pub mod fields;
pub mod laws;
pub mod numfmt;
pub mod render;

pub use decode::build_decoder;
pub use decode::classify_decode_error;
pub use decode::classify_decode_failure;
pub use driver::stream_step;
pub use driver::DecodeFailure;
pub use driver::Opts;
pub use driver::RunError;
pub use driver::StreamAction;
pub use fields::Event;
pub use fields::FieldGroup;
pub use fields::FieldValue;
pub use fields::Packet;
pub use fields::PacketContext;
pub use fields::PacketHeader;
pub use fields::PrimitiveFieldValue;
pub use numfmt::pad16;
pub use numfmt::DisplayBase;
pub use render::fmt_fv;
pub use render::fmt_pfv;
pub use render::fmt_signed;
pub use render::fmt_unsigned;
pub use render::join_strings;
pub use render::render_event;
pub use render::render_group;
pub use render::render_packet_lines;

verus! {

} // verus!
