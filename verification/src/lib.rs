//! Conversion between a byte count and its two serialized representations:
//! a human-readable size string and the bare unsigned 64-bit integer.
//! The rendering and the size grammar come from the `bytesize` crate; the
//! dispatch around them is verified.

use vstd::prelude::*;

verus! {

/// A count of bytes: a non-negative value that fits in 64 bits.
#[derive(Clone, Copy, Debug, PartialEq, Eq, Structural)]
pub struct ByteCount {
    pub bytes: u64,
}

impl ByteCount {
    /// Wraps a raw count of bytes.
    pub fn new(bytes: u64) -> (r: ByteCount)
        ensures
            r.bytes == bytes,
    {
        ByteCount { bytes }
    }
}

/// The canonical human-readable rendering of a byte count, as `bytesize`
/// defines it; it depends on the count alone.
pub uninterp spec fn rendered(n: u64) -> Seq<char>;

/// What the size grammar of `bytesize` makes of a string: the byte count it
/// denotes, or nothing when the string is not a size. It depends on the
/// string alone.
pub uninterp spec fn parsed(s: Seq<char>) -> Option<u64>;

/// Relies on bytesize::ByteSize's Display implementation for the canonical
/// rendering of a count; the result is a function of the count alone.
#[verifier::external_body]
fn render(n: u64) -> (r: String)
    ensures
        r@ == rendered(n),
{
    bytesize::ByteSize(n).to_string()
}

/// Relies on bytesize::ByteSize's FromStr implementation for the size
/// grammar; the outcome is a function of the string alone, and an error
/// means the string is not a recognized size.
#[verifier::external_body]
fn parse_size(s: &str) -> (r: Option<u64>)
    ensures
        r == parsed(s@),
{
    match s.parse::<bytesize::ByteSize>() {
        Ok(b) => Some(b.0),
        Err(_) => None,
    }
}

/// The shape of a serialized byte count, at the specification level.
pub enum Wire {
    Text(Seq<char>),
    Number(u64),
}

/// The serialized form the encoder hands to the caller: a size string for a
/// human-readable destination, the bare count for a binary one.
#[derive(Debug, PartialEq, Eq)]
pub enum Encoded {
    Text(String),
    Number(u64),
}

impl View for Encoded {
    type V = Wire;

    open spec fn view(&self) -> Wire {
        match self {
            Encoded::Text(s) => Wire::Text(s@),
            Encoded::Number(n) => Wire::Number(*n),
        }
    }
}

/// What the encoder emits for a count of `n` bytes, by the destination's
/// human-readability.
pub open spec fn spec_encode(n: u64, human_readable: bool) -> Wire {
    if human_readable {
        Wire::Text(rendered(n))
    } else {
        Wire::Number(n)
    }
}

/// Encoder: renders the count as its canonical size string when the
/// destination format is human-readable, and as the raw count otherwise.
pub fn encode(value: &ByteCount, human_readable: bool) -> (r: Encoded)
    ensures
        r@ == spec_encode(value.bytes, human_readable),
{
    if human_readable {
        Encoded::Text(render(value.bytes))
    } else {
        Encoded::Number(value.bytes)
    }
}

/// The primitive a human-readable source actually delivered when asked for
/// a value of unconstrained shape.
#[derive(Debug, PartialEq, Eq)]
pub enum Primitive {
    Signed(i64),
    Unsigned(u64),
    Text(String),
    Other,
}

/// Why a primitive was rejected as a byte count.
#[derive(Debug, PartialEq, Eq)]
pub enum DecodeError {
    /// A negative signed integer cannot be a byte count.
    Overflow(i64),
    /// The string does not conform to the size grammar.
    Unparsable(String),
    /// The primitive is neither an integer nor a string.
    Mismatch,
}

/// What the decoder makes of each primitive shape.
pub open spec fn spec_decode_any(p: Primitive) -> Result<ByteCount, DecodeError> {
    match p {
        Primitive::Signed(v) => if v >= 0 {
            Ok(ByteCount { bytes: v as u64 })
        } else {
            Err(DecodeError::Overflow(v))
        },
        Primitive::Unsigned(v) => Ok(ByteCount { bytes: v }),
        Primitive::Text(s) => match parsed(s@) {
            Some(n) => Ok(ByteCount { bytes: n }),
            None => Err(DecodeError::Unparsable(s)),
        },
        Primitive::Other => Err(DecodeError::Mismatch),
    }
}

/// Decoder for a human-readable source: dispatches on the shape that the
/// "any" request delivered. A non-negative integer is the count itself; a
/// string goes through the size grammar; everything else is rejected.
pub fn decode_any(p: Primitive) -> (r: Result<ByteCount, DecodeError>)
    ensures
        r == spec_decode_any(p),
{
    match p {
        Primitive::Signed(v) => {
            if v >= 0 {
                Ok(ByteCount { bytes: v as u64 })
            } else {
                Err(DecodeError::Overflow(v))
            }
        },
        Primitive::Unsigned(v) => Ok(ByteCount { bytes: v }),
        Primitive::Text(s) => {
            match parse_size(s.as_str()) {
                Some(n) => Ok(ByteCount { bytes: n }),
                None => Err(DecodeError::Unparsable(s)),
            }
        },
        Primitive::Other => Err(DecodeError::Mismatch),
    }
}

/// What the decoder makes of the count a binary source delivers.
pub open spec fn spec_decode_u64(n: u64) -> ByteCount {
    ByteCount { bytes: n }
}

/// Decoder for a binary source: the raw unsigned count, accepted
/// unconditionally.
pub fn decode_u64(n: u64) -> (r: ByteCount)
    ensures
        r == spec_decode_u64(n),
{
    ByteCount { bytes: n }
}

/// Round trip through a binary destination: the encoder emits the bare
/// count as a number, and decoding that number returns the original count.
pub proof fn lemma_binary_round_trip(x: u64)
    ensures
        spec_encode(x, false) matches Wire::Number(n) && spec_decode_u64(n).bytes == x,
{
}

/// Round trip through a human-readable source that carried the count as an
/// unsigned number: the "any" dispatch accepts it unchanged.
pub proof fn lemma_numeric_round_trip(x: u64)
    ensures
        spec_decode_any(Primitive::Unsigned(x)) == Ok::<ByteCount, DecodeError>(
            ByteCount { bytes: x },
        ),
{
}

/// A negative signed integer is rejected with the overflow error and is
/// never coerced into a large unsigned count.
pub proof fn lemma_negative_rejected(v: i64)
    requires
        v < 0,
    ensures
        spec_decode_any(Primitive::Signed(v)) == Err::<ByteCount, DecodeError>(
            DecodeError::Overflow(v),
        ),
{
}

/// Format-shape sensitivity: one count goes out as its rendering under a
/// human-readable destination and as the bare number under a binary one,
/// and the number decodes back to the same count.
pub proof fn lemma_format_shape(x: u64)
    ensures
        spec_encode(x, true) == Wire::Text(rendered(x)),
        spec_encode(x, true) !is Number,
        spec_encode(x, false) == Wire::Number(x),
        spec_decode_u64(x).bytes == x,
{
}

} // verus!
