use vstd::prelude::*;

use crate::key::{Key, KEY_LEN};

verus! {

/// A protocol-level error, sent in place of a reply when dispatch cannot
/// produce one. It carries no handler data.
#[derive(Clone, Copy, Debug, PartialEq, Eq)]
pub enum WireError {
    /// The request payload did not decode as the endpoint's request type.
    DeserFailed,
    /// The handler's response did not encode.
    SerFailed,
    /// No endpoint is registered under the key; it carries the key's raw bytes.
    UnknownKey([u8; 8]),
    /// The handler task could not be submitted to the scheduler.
    FailedToSpawn,
}

/// An outbound frame: correlation number, routing key and encoded payload.
#[derive(Clone, Debug, PartialEq, Eq)]
pub struct Frame {
    pub seq_no: u32,
    pub key: Key,
    pub payload: Vec<u8>,
}

/// The variable-length integer encoding: seven bits per byte, lowest group
/// first, the high bit set on every byte but the last.
pub open spec fn varint(v: nat) -> Seq<u8>
    decreases v,
{
    if v < 128 {
        seq![v as u8]
    } else {
        seq![(v % 128 + 128) as u8] + varint(v / 128)
    }
}

/// The bytes of the reserved key under which error frames are sent.
pub open spec fn error_key_bytes() -> Seq<u8> {
    seq![0u8, 0u8, 0u8, 0u8, 0u8, 0u8, 0u8, 0u8]
}

impl WireError {
    /// The variant's index on the wire.
    pub open spec fn tag(self) -> u32 {
        match self {
            WireError::DeserFailed => 0,
            WireError::SerFailed => 1,
            WireError::UnknownKey(_) => 2,
            WireError::FailedToSpawn => 3,
        }
    }

    /// The wire encoding: the variant index as a varint, then the raw key
    /// bytes for an unknown key.
    pub open spec fn encoding(self) -> Seq<u8> {
        match self {
            WireError::UnknownKey(k) => varint(self.tag() as nat) + k@,
            _ => varint(self.tag() as nat),
        }
    }

    /// The variant index on the wire.
    pub fn wire_tag(&self) -> (r: u32)
        ensures
            r == self.tag(),
    {
        match self {
            WireError::DeserFailed => 0,
            WireError::SerFailed => 1,
            WireError::UnknownKey(_) => 2,
            WireError::FailedToSpawn => 3,
        }
    }

    /// Encodes the error value as it travels in an error frame.
    pub fn encode(&self) -> (r: Vec<u8>)
        ensures
            r@ == self.encoding(),
    {
        let mut out = match encode_u32(self.wire_tag()) {
            Some(b) => b,
            None => Vec::new(),
        };
        if let WireError::UnknownKey(k) = self {
            let ghost start = out@;
            let mut i: usize = 0;
            while i < KEY_LEN
                invariant
                    i <= KEY_LEN,
                    k@.len() == KEY_LEN,
                    out@ == start + k@.subrange(0, i as int),
                decreases KEY_LEN - i,
            {
                out.push(k[i]);
                assert(k@.subrange(0, i + 1) =~= k@.subrange(0, i as int).push(k@[i as int]));
                i = i + 1;
            }
            assert(k@.subrange(0, KEY_LEN as int) =~= k@);
        }
        out
    }
}

/// Relies on postcard::to_allocvec: a `u32` is written by `serialize_u32` as
/// its varint (`varint_u32`), and the growable-vector flavor's `try_extend`
/// and `finalize` always succeed.
#[verifier::external_body]
fn encode_u32(v: u32) -> (r: Option<Vec<u8>>)
    ensures
        r.is_some(),
        r.unwrap()@ == varint(v as nat),
{
    postcard::to_allocvec(&v).ok()
}

/// The reserved key under which every error frame is sent.
pub fn error_key() -> (r: Key)
    ensures
        r@ == error_key_bytes(),
{
    let r = Key { bytes: [0u8, 0u8, 0u8, 0u8, 0u8, 0u8, 0u8, 0u8] };
    assert(r@ =~= error_key_bytes());
    r
}

/// The error frame for `error`, answering the request numbered `seq_no`.
/// Sending it is best effort: a failure to send is not reported further.
pub fn report_error(seq_no: u32, error: &WireError) -> (r: Frame)
    ensures
        r.seq_no == seq_no,
        r.key@ == error_key_bytes(),
        r.payload@ == error.encoding(),
{
    Frame { seq_no, key: error_key(), payload: error.encode() }
}

/// The reply frame carrying the encoded response `payload` under the
/// endpoint's response key.
pub fn reply_frame(seq_no: u32, key: Key, payload: Vec<u8>) -> (r: Frame)
    ensures
        r.seq_no == seq_no,
        r.key == key,
        r.payload@ == payload@,
{
    Frame { seq_no, key, payload }
}

} // verus!
