//! Framing and session state for the host message protocol. Each frame on the
//! wire is a 4-byte big-endian length prefix followed by a payload whose first
//! 4 bytes are a category tag; the remainder of the payload is a structured
//! body. The host sends `OPTS` (pending transformation options) and `DONE`
//! (run the transformation); this side answers with `STAT`, `DONE` and `ERRR`
//! frames. Reading and writing the byte stream, and encoding the structured
//! bodies, happen outside this crate; here live the framing itself, the
//! category dispatch and the session's option state.

use vstd::prelude::*;

use crate::Color;
use crate::Quality;
use crate::TransformationError;
use crate::bytes_eq;

verus! {

/// The 4 bytes of `x`, most significant first.
pub open spec fn spec_u32_be_bytes(x: u32) -> Seq<u8> {
    seq![
        ((x >> 24) & 0xff) as u8,
        ((x >> 16) & 0xff) as u8,
        ((x >> 8) & 0xff) as u8,
        (x & 0xff) as u8,
    ]
}

/// The value whose big-endian bytes the 4-byte sequence `b` holds.
pub open spec fn spec_u32_from_be(b: Seq<u8>) -> int {
    b[0] * 0x1000000 + b[1] * 0x10000 + b[2] * 0x100 + b[3]
}

pub fn u32_to_be_bytes(x: u32) -> (r: [u8; 4])
    ensures
        r@ == spec_u32_be_bytes(x),
{
    let r = [
        ((x >> 24) & 0xff) as u8,
        ((x >> 16) & 0xff) as u8,
        ((x >> 8) & 0xff) as u8,
        (x & 0xff) as u8,
    ];
    assert(r@ =~= spec_u32_be_bytes(x));
    r
}

pub fn u32_from_be_bytes(bytes: &[u8]) -> (x: u32)
    requires
        bytes@.len() == 4,
    ensures
        x == spec_u32_from_be(bytes@),
{
    (bytes[0] as u32) * 0x1000000 + (bytes[1] as u32) * 0x10000 + (bytes[2] as u32) * 0x100 + (
    bytes[3] as u32)
}

/// Reading back the 4 big-endian bytes of a value gives the value.
pub proof fn lemma_u32_be_round_trip(x: u32)
    ensures
        spec_u32_from_be(spec_u32_be_bytes(x)) == x,
{
    assert((x >> 24) & 0xff < 256) by (bit_vector);
    assert((x >> 16) & 0xff < 256) by (bit_vector);
    assert((x >> 8) & 0xff < 256) by (bit_vector);
    assert(x & 0xff < 256) by (bit_vector);
    assert(((x >> 24) & 0xff) as u64 * 0x1000000 + ((x >> 16) & 0xff) as u64 * 0x10000 + ((x >> 8)
        & 0xff) as u64 * 0x100 + (x & 0xff) as u64 == x as u64) by (bit_vector);
}

/// Frames one outbound message: the 4-byte big-endian length of category plus
/// body, then the 4-byte category tag, then the body.
pub fn frame_message(category: &[u8], data: &[u8]) -> (r: Vec<u8>)
    requires
        category@.len() == 4,
        4 + data@.len() <= u32::MAX,
    ensures
        r@ == spec_u32_be_bytes((category@.len() + data@.len()) as u32) + category@ + data@,
{
    let body_len = category.len() + data.len();
    let header = u32_to_be_bytes(body_len as u32);
    let mut r: Vec<u8> = Vec::new();
    r.extend_from_slice(header.as_slice());
    r.extend_from_slice(category);
    r.extend_from_slice(data);
    assert(r@ =~= spec_u32_be_bytes((category@.len() + data@.len()) as u32) + category@ + data@);
    r
}

/// Splits an inbound frame's payload into its 4-byte category tag and the
/// structured body after it.
pub fn parse_category(body: &[u8]) -> (r: (&[u8], &[u8]))
    requires
        body@.len() >= 4,
    ensures
        r.0@ == body@.subrange(0, 4),
        r.1@ == body@.subrange(4, body@.len() as int),
{
    let category = &body[0..4];
    let rest = &body[4..body.len()];
    (category, rest)
}

/// The category tag of an inbound frame that sets the pending options: the
/// ASCII bytes of `OPTS`.
pub open spec fn opts_tag() -> Seq<u8> {
    seq![79u8, 80u8, 84u8, 83u8]
}

/// The category tag of an inbound frame that triggers the transformation, and
/// of the outbound frame that reports its completion: the ASCII bytes of
/// `DONE`.
pub open spec fn done_tag() -> Seq<u8> {
    seq![68u8, 79u8, 78u8, 69u8]
}

/// The category tag of an outbound progress report: the ASCII bytes of
/// `STAT`.
pub open spec fn stat_tag() -> Seq<u8> {
    seq![83u8, 84u8, 65u8, 84u8]
}

/// The category tag of an outbound error report: the ASCII bytes of `ERRR`.
pub open spec fn errr_tag() -> Seq<u8> {
    seq![69u8, 82u8, 82u8, 82u8]
}

/// What an inbound frame asks for.
#[derive(Debug, Clone, Copy, PartialEq, Eq, Structural)]
pub enum FrameKind {
    /// Set the pending transformation options.
    Opts,
    /// Run the transformation with the pending options.
    Done,
    /// Not a recognized category: an error for the current session.
    Unknown,
}

/// The request an inbound category tag denotes.
pub open spec fn spec_frame_kind(category: Seq<u8>) -> FrameKind {
    if category == opts_tag() {
        FrameKind::Opts
    } else if category == done_tag() {
        FrameKind::Done
    } else {
        FrameKind::Unknown
    }
}

pub fn frame_kind(category: &[u8]) -> (k: FrameKind)
    ensures
        k == spec_frame_kind(category@),
{
    let opts: [u8; 4] = [79, 80, 84, 83];
    let done: [u8; 4] = [68, 79, 78, 69];
    assert(opts@ =~= opts_tag());
    assert(done@ =~= done_tag());
    if bytes_eq(category, opts.as_slice()) {
        FrameKind::Opts
    } else if bytes_eq(category, done.as_slice()) {
        FrameKind::Done
    } else {
        FrameKind::Unknown
    }
}

/// The options an `OPTS` frame carries, as plain values: how to transform and
/// which files to read and write. The structured body is decoded outside this
/// crate and handed in as this record.
#[derive(Debug)]
pub struct HostOptions {
    pub quality: Quality,
    pub background_color: Color,
    pub in_file: String,
    pub out_file: String,
}

/// The session state of the host loop: the most recently received options, if
/// any. A `DONE` frame consumes them; a `DONE` without any is the session's
/// missing-options error.
pub struct HostSession {
    pub options: Option<HostOptions>,
}

impl HostSession {
    pub fn new() -> (s: HostSession)
        ensures
            s.options is None,
    {
        HostSession { options: None }
    }

    pub fn set_options(&mut self, options: HostOptions)
        ensures
            final(self).options == Some(options),
    {
        self.options = Some(options);
    }

    /// Takes the pending options for a `DONE` frame. Fails with the receiving
    /// error exactly when no `OPTS` frame has set any.
    pub fn take_options(&mut self) -> (r: Result<HostOptions, TransformationError>)
        ensures
            final(self).options is None,
            old(self).options matches Some(o) ==> r matches Ok(taken) && taken == o,
            old(self).options is None ==> (r matches Err(e) && (e matches
                TransformationError::Receiving(m) && m@ == "Missing options"@)),
    {
        let mut taken: Option<HostOptions> = None;
        core::mem::swap(&mut taken, &mut self.options);
        match taken {
            Some(options) => Ok(options),
            None => Err(TransformationError::Receiving("Missing options".to_owned())),
        }
    }
}

} // verus!
