//! Websocket frames: a DAG-CBOR header value followed by a body.
use vstd::prelude::*;
use crate::text::byte_range;
use ipld_core::ipld::Ipld;

verus! {

/// What a frame header announces.
#[derive(Debug, Clone, PartialEq, Eq)]
pub enum FrameHeader {
    /// `op = 1`, with the optional message type `t`.
    Message(Option<String>),
    /// `op = -1`.
    Error,
}

/// The body of a message frame.
#[derive(Debug, Clone, PartialEq, Eq)]
pub struct MessageFrame {
    pub body: Vec<u8>,
}

/// The body of an error frame, which is not read.
#[derive(Debug, Clone, PartialEq, Eq)]
pub struct ErrorFrame {}

/// One decoded websocket message.
#[derive(Debug, Clone, PartialEq, Eq)]
pub enum Frame {
    Message(Option<String>, MessageFrame),
    Error(ErrorFrame),
}

/// Why a frame could not be decoded.
#[derive(Debug, Clone, PartialEq, Eq)]
pub enum FrameError {
    /// The buffer does not hold a complete DAG-CBOR value followed by more data.
    InvalidFrameData(Vec<u8>),
    /// The header is not a map, or its `op` is missing, not an integer, or neither 1 nor -1.
    InvalidFrameType,
    /// The header bytes are not one DAG-CBOR value.
    HeaderDecode,
}

impl FrameError {
    /// A short description of the error.
    pub fn message(&self) -> (r: String)
        ensures
            self is InvalidFrameType ==> r@ == "invalid frame type"@,
    {
        match self {
            FrameError::InvalidFrameData(_) => String::from_str("invalid frame data"),
            FrameError::InvalidFrameType => String::from_str("invalid frame type"),
            FrameError::HeaderDecode => String::from_str("invalid frame header encoding"),
        }
    }
}

/// A header, with its message type as characters.
pub ghost enum HeaderModel {
    Message(Option<Seq<char>>),
    Error,
}

/// A frame, with its message type as characters and its body as bytes.
pub ghost enum FrameModel {
    Message(Option<Seq<char>>, Seq<u8>),
    Error,
}

/// A frame error, with its bytes as a sequence.
pub ghost enum FrameErrorModel {
    InvalidFrameData(Seq<u8>),
    InvalidFrameType,
    HeaderDecode,
}

pub open spec fn text_opt(t: Option<String>) -> Option<Seq<char>> {
    match t {
        Some(s) => Some(s@),
        None => None,
    }
}

impl View for FrameHeader {
    type V = HeaderModel;

    open spec fn view(&self) -> HeaderModel {
        match self {
            FrameHeader::Message(t) => HeaderModel::Message(text_opt(*t)),
            FrameHeader::Error => HeaderModel::Error,
        }
    }
}

impl View for Frame {
    type V = FrameModel;

    open spec fn view(&self) -> FrameModel {
        match self {
            Frame::Message(t, m) => FrameModel::Message(text_opt(*t), m.body@),
            Frame::Error(_) => FrameModel::Error,
        }
    }
}

impl View for FrameError {
    type V = FrameErrorModel;

    open spec fn view(&self) -> FrameErrorModel {
        match self {
            FrameError::InvalidFrameData(b) => FrameErrorModel::InvalidFrameData(b@),
            FrameError::InvalidFrameType => FrameErrorModel::InvalidFrameType,
            FrameError::HeaderDecode => FrameErrorModel::HeaderDecode,
        }
    }
}

pub open spec fn result_view<T: View, E: View>(r: Result<T, E>) -> Result<T::V, E::V> {
    match r {
        Ok(v) => Ok(v@),
        Err(e) => Err(e@),
    }
}

/// The header that a map's `op` and `t` entries give, if `op` is valid.
pub open spec fn header_spec(op: Option<i128>, t: Option<Seq<char>>) -> Result<HeaderModel, FrameErrorModel> {
    match op {
        Some(1) => Ok(HeaderModel::Message(t)),
        Some(-1) => Ok(HeaderModel::Error),
        _ => Err(FrameErrorModel::InvalidFrameType),
    }
}

/// The frame that a header and the bytes after it make.
pub open spec fn frame_spec(h: HeaderModel, body: Seq<u8>) -> FrameModel {
    match h {
        HeaderModel::Message(t) => FrameModel::Message(t, body),
        HeaderModel::Error => FrameModel::Error,
    }
}

/// Where the first of several concatenated DAG-CBOR values in `b` ends: `None`
/// when `b` does not hold a complete value followed by more bytes.
pub uninterp spec fn dagcbor_first_value_end(b: Seq<u8>) -> Option<nat>;

/// Relies on serde_ipld_dagcbor::from_reader: after a complete value it fails
/// with `TrailingData` if bytes remain, its reader standing just after the value.
#[verifier::external_body]
fn first_value_end(b: &[u8]) -> (r: Option<usize>)
    ensures
        r matches Some(n) ==> dagcbor_first_value_end(b@) == Some(n as nat),
        r is None ==> dagcbor_first_value_end(b@) is None,
{
    let mut cursor = std::io::Cursor::new(b);
    match serde_ipld_dagcbor::from_reader::<Ipld, _>(&mut cursor) {
        Err(serde_ipld_dagcbor::DecodeError::TrailingData) => Some(cursor.position() as usize),
        _ => None,
    }
}

/// Decoding `b` as one DAG-CBOR value: `None` when that fails; `Some(None)` when
/// the value is not a map; else the integer under `int_key` and the string
/// under `text_key`, each `None` when absent or of another kind.
pub uninterp spec fn dagcbor_map_entries(
    b: Seq<u8>,
    int_key: Seq<char>,
    text_key: Seq<char>,
) -> Option<Option<(Option<i128>, Option<Seq<char>>)>>;

pub open spec fn entries_view(
    r: Option<Option<(Option<i128>, Option<String>)>>,
) -> Option<Option<(Option<i128>, Option<Seq<char>>)>> {
    match r {
        None => None,
        Some(None) => Some(None),
        Some(Some((i, t))) => Some(Some((i, text_opt(t)))),
    }
}

/// Relies on serde_ipld_dagcbor::from_slice: decodes exactly one DAG-CBOR value
/// as an `Ipld`, whose map entries are then read.
#[verifier::external_body]
fn map_entries(b: &[u8], int_key: &str, text_key: &str) -> (r: Option<
    Option<(Option<i128>, Option<String>)>,
>)
    ensures
        entries_view(r) == dagcbor_map_entries(b@, int_key@, text_key@),
{
    match serde_ipld_dagcbor::from_slice::<Ipld>(b) {
        Ok(Ipld::Map(m)) => Some(Some((
            match m.get(int_key) { Some(Ipld::Integer(i)) => Some(*i), _ => None },
            match m.get(text_key) { Some(Ipld::String(s)) => Some(s.clone()), _ => None },
        ))),
        Ok(_) => Some(None),
        Err(_) => None,
    }
}

/// What decoding the header bytes `b` gives.
pub open spec fn decode_header_spec(b: Seq<u8>) -> Result<HeaderModel, FrameErrorModel> {
    match dagcbor_map_entries(b, "op"@, "t"@) {
        None => Err(FrameErrorModel::HeaderDecode),
        Some(None) => Err(FrameErrorModel::InvalidFrameType),
        Some(Some((op, t))) => header_spec(op, t),
    }
}

/// What decoding a whole websocket message `b` gives.
pub open spec fn decode_frame_spec(b: Seq<u8>) -> Result<FrameModel, FrameErrorModel> {
    match dagcbor_first_value_end(b) {
        Some(n) if n <= b.len() => match decode_header_spec(b.subrange(0, n as int)) {
            Ok(h) => Ok(frame_spec(h, b.subrange(n as int, b.len() as int))),
            Err(e) => Err(e),
        },
        _ => Err(FrameErrorModel::InvalidFrameData(b)),
    }
}

/// Interprets the `op` and `t` entries of a header map.
pub fn header_from_fields(op: Option<i128>, t: Option<String>) -> (r: Result<FrameHeader, FrameError>)
    ensures
        result_view(r) == header_spec(op, text_opt(t)),
{
    match op {
        Some(1) => Ok(FrameHeader::Message(t)),
        Some(-1) => Ok(FrameHeader::Error),
        _ => Err(FrameError::InvalidFrameType),
    }
}

/// Builds the frame that a header announces, around the bytes that follow it.
pub fn frame_from_header(header: FrameHeader, body: Vec<u8>) -> (r: Frame)
    ensures
        r@ == frame_spec(header@, body@),
{
    match header {
        FrameHeader::Message(t) => Frame::Message(t, MessageFrame { body }),
        FrameHeader::Error => Frame::Error(ErrorFrame {}),
    }
}

/// Decodes a frame header from the bytes of one DAG-CBOR map.
pub fn decode_header(b: &[u8]) -> (r: Result<FrameHeader, FrameError>)
    ensures
        result_view(r) == decode_header_spec(b@),
{
    match map_entries(b, "op", "t") {
        None => Err(FrameError::HeaderDecode),
        Some(None) => Err(FrameError::InvalidFrameType),
        Some(Some((op, t))) => header_from_fields(op, t),
    }
}

/// Decodes one websocket message: a header value, then the body.
pub fn decode_frame(b: &[u8]) -> (r: Result<Frame, FrameError>)
    ensures
        result_view(r) == decode_frame_spec(b@),
{
    match first_value_end(b) {
        Some(n) if n <= b.len() => {
            let head = byte_range(b, 0, n);
            let body = byte_range(b, n, b.len());
            match decode_header(head.as_slice()) {
                Ok(h) => Ok(frame_from_header(h, body)),
                Err(e) => Err(e),
            }
        },
        _ => {
            let all = byte_range(b, 0, b.len());
            assert(all@ =~= b@);
            Err(FrameError::InvalidFrameData(all))
        },
    }
}

/// For a buffer holding a header map followed by a body, decoding gives the
/// message frame carrying the header's `t` and exactly the body if and only if
/// the header's `op` is 1.
pub proof fn lemma_frame_round_trip(
    b: Seq<u8>,
    n: nat,
    op: Option<i128>,
    t: Option<Seq<char>>,
)
    requires
        dagcbor_first_value_end(b) == Some(n),
        n <= b.len(),
        dagcbor_map_entries(b.subrange(0, n as int), "op"@, "t"@) == Some(Some((op, t))),
    ensures
        decode_frame_spec(b) == Ok::<FrameModel, FrameErrorModel>(
            FrameModel::Message(t, b.subrange(n as int, b.len() as int)),
        ) <==> op == Some(1i128),
{
}

/// For every integer `op` other than 1 and -1 in the header map, decoding
/// fails with `InvalidFrameType`.
pub proof fn lemma_other_op_invalid(b: Seq<u8>, n: nat, op: i128, t: Option<Seq<char>>)
    requires
        dagcbor_first_value_end(b) == Some(n),
        n <= b.len(),
        dagcbor_map_entries(b.subrange(0, n as int), "op"@, "t"@) == Some(Some((Some(op), t))),
        op != 1,
        op != -1,
    ensures
        decode_frame_spec(b) == Err::<FrameModel, FrameErrorModel>(FrameErrorModel::InvalidFrameType),
{
}

} // verus!
