//! Length-prefixed byte strings, the way every string field travels in the
//! AMQP wire structures.
use vstd::prelude::*;
use vstd::slice::{slice_to_vec, slice_subrange};
use vstd::string::*;
use vstd::utf8::*;

verus! {

broadcast use {vstd::utf8::encode_utf8_valid_utf8, vstd::utf8::encode_utf8_decode_utf8};

/// A byte string as the broker library carries it (`amqp_bytes_t`): a
/// length and a buffer whose first `len` bytes are the string. A buffer made
/// from a string also holds a 0 byte after them, as a C string does.
#[derive(Debug)]
pub struct AmqpBytes {
    pub len: u64,
    pub bytes: Vec<u8>,
}

impl View for AmqpBytes {
    type V = Seq<u8>;

    /// The string: the first `len` bytes of the buffer.
    open spec fn view(&self) -> Seq<u8> {
        self.bytes@.subrange(0, self.len as int)
    }
}

impl AmqpBytes {
    /// Whether the length fits in the buffer.
    pub open spec fn wf(&self) -> bool {
        self.len <= self.bytes@.len()
    }

    /// Whether this is the C string form of `s`: its UTF-8 bytes followed by
    /// a 0 byte, with the length of the bytes alone.
    pub open spec fn is_c_string_of(&self, s: Seq<char>) -> bool {
        &&& self.len == wire_bytes(s).len()
        &&& self.bytes@ == wire_bytes(s).push(0u8)
    }

    /// The length field of the wire structure: the number of bytes of the
    /// string.
    pub fn len(&self) -> (res: u64)
        ensures
            res == self.len,
    {
        self.len
    }

    /// A second value with the same length and buffer.
    pub fn duplicate(&self) -> (res: AmqpBytes)
        ensures
            res.len == self.len,
            res.bytes@ == self.bytes@,
    {
        AmqpBytes { len: self.len, bytes: slice_to_vec(self.bytes.as_slice()) }
    }
}

/// The C string form of a string has the string's UTF-8 bytes as its view.
pub proof fn lemma_c_string_view(b: AmqpBytes, s: Seq<char>)
    requires
        b.is_c_string_of(s),
    ensures
        b.wf(),
        b@ == wire_bytes(s),
{
    assert(b@ =~= wire_bytes(s));
}

/// The bytes that stand on the wire for a string: its UTF-8 encoding.
pub open spec fn wire_bytes(s: Seq<char>) -> Seq<u8> {
    encode_utf8(s)
}

/// Whether a string can be handed to the broker library: it holds no NUL
/// character, which would end it early as a C string.
pub open spec fn nul_free(s: Seq<char>) -> bool {
    !s.contains('\0')
}

/// Encodes a string as a C string of the wire structures: its UTF-8 bytes,
/// then a 0 byte; the string must hold no NUL character.
pub fn str_to_amqp_bytes(string: &str) -> (res: AmqpBytes)
    requires
        nul_free(string@),
    ensures
        res.is_c_string_of(string@),
        res@ == wire_bytes(string@),
{
    let mut bytes = slice_to_vec(string.as_bytes());
    let len = bytes.len() as u64;
    bytes.push(0u8);
    let res = AmqpBytes { len, bytes };
    proof {
        lemma_c_string_view(res, string@);
    }
    res
}

/// `String::from_utf8`, with the error dropped: `Some` exactly when the bytes
/// are valid UTF-8, and then the string that they decode to.
#[verifier::external_body]
fn string_from_utf8(bytes: Vec<u8>) -> (res: Option<String>)
    ensures
        res is Some <==> valid_utf8(bytes@),
        res matches Some(s) ==> s@ == decode_utf8(bytes@),
{
    String::from_utf8(bytes).ok()
}

/// Decodes a byte string of the wire structures into a string; its length
/// must fit in its buffer, and its bytes must be valid UTF-8.
pub fn amqp_bytes_to_str(bytes: &AmqpBytes) -> (res: String)
    requires
        bytes.wf(),
        valid_utf8(bytes@),
    ensures
        res@ == decode_utf8(bytes@),
{
    let buffer = bytes.bytes.as_slice();
    let m: usize = buffer.len();
    assert(bytes.len <= m);
    let n: usize = bytes.len as usize;
    assert(n == bytes.len);
    let content = slice_subrange(buffer, 0, n);
    assert(content@ =~= bytes@);
    match string_from_utf8(slice_to_vec(content)) {
        Some(s) => s,
        None => String::new(),
    }
}

/// Encoding a string and decoding the bytes gives the string back, and the
/// encoding is always valid UTF-8, so decoding it is always allowed.
pub proof fn lemma_wire_bytes_round_trip(s: Seq<char>)
    ensures
        valid_utf8(wire_bytes(s)),
        decode_utf8(wire_bytes(s)) == s,
{
}

} // verus!
