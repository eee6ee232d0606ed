//! The data model the renderer consumes: one decoded packet with its header,
//! context and events, where every field is either a scalar or an array of
//! scalars.
use crate::numfmt::DisplayBase;
use vstd::prelude::*;

verus! {

/// One decoded scalar trace value, paired with the base it should be
/// displayed in where it is numeric.
///
/// Floating-point values arrive already rendered as their decimal text: the
/// renderer itself is defined purely over integers and text, so the caller
/// that talks to the trace decoder turns a float into its decimal form
/// before handing it over.
#[derive(Clone, Debug, PartialEq)]
pub enum PrimitiveFieldValue {
    UnsignedInteger(u64, DisplayBase),
    SignedInteger(i64, DisplayBase),
    Text(String),
    Float32(String),
    Float64(String),
    Enumeration(u64, DisplayBase, Option<String>),
}

/// A field value is either one scalar or a homogeneous, index-addressed
/// list of scalars.
#[derive(Clone, Debug, PartialEq)]
pub enum FieldValue {
    Primitive(PrimitiveFieldValue),
    Array(Vec<PrimitiveFieldValue>),
}

/// A named field group: name/value pairs kept in declaration order, which
/// the renderer must never re-sort.
pub type FieldGroup = Vec<(String, FieldValue)>;

/// One decoded event: a timestamp in clock cycles, a name, and its three
/// field groups.
#[derive(Clone, Debug, PartialEq)]
pub struct Event {
    pub timestamp: u64,
    pub name: String,
    pub common_context: FieldGroup,
    pub specific_context: FieldGroup,
    pub payload: FieldGroup,
}

/// The part of a packet header the renderer reads: which logical stream the
/// packet belongs to.
#[derive(Clone, Debug, PartialEq)]
pub struct PacketHeader {
    pub stream_name: String,
}

/// The part of a packet context the renderer reads: the user-defined extra
/// members, in declaration order.
#[derive(Clone, Debug, PartialEq)]
pub struct PacketContext {
    pub extra_members: FieldGroup,
}

/// One decoded packet: header, context and its events in decode order.
#[derive(Clone, Debug, PartialEq)]
pub struct Packet {
    pub header: PacketHeader,
    pub context: PacketContext,
    pub events: Vec<Event>,
}

} // verus!
