//! LIFX protocol labels: UTF-8 text of at most 32 bytes, zero-padded to 32
//! bytes on the wire. Trailing NUL bytes are stripped on decode, and a
//! non-UTF-8 payload is rejected.

use vstd::prelude::*;
use vstd::string::StringExecFns;
use vstd::utf8::{
    decode_utf8, decode_utf8_encode_utf8, encode_utf8, encode_utf8_decode_utf8, encode_scalar,
    encode_utf8_valid_utf8, char_is_scalar, is_scalar, valid_utf8,
};
use crate::error::ProtocolError;
use crate::wire::zero_bytes;

verus! {

/// A device label: UTF-8 text whose encoding is at most 32 bytes long.
#[derive(Debug, PartialEq, Eq)]
pub struct Label(String);

impl Clone for Label {
    /// Clones the label, keeping its text.
    fn clone(&self) -> (r: Self)
        ensures
            r == *self,
    {
        proof {
            use_type_invariant(&*self);
        }
        Label(self.0.clone())
    }
}

impl View for Label {
    type V = Seq<char>;

    closed spec fn view(&self) -> Seq<char> {
        self.0@
    }
}

/// `bytes` with every trailing zero byte removed.
pub open spec fn strip_trailing_zeros(bytes: Seq<u8>) -> Seq<u8>
    decreases bytes.len(),
{
    if bytes.len() > 0 && bytes.last() == 0 {
        strip_trailing_zeros(bytes.drop_last())
    } else {
        bytes
    }
}

impl Label {
    /// Size of a label on the wire, in bytes.
    pub const MAX_LENGTH: usize = 32;

    /// Whether the UTF-8 encoding of this label fits in 32 bytes.
    pub open spec fn wf(self) -> bool {
        encode_utf8(self@).len() <= 32
    }

    /// Every label holds at most 32 bytes of UTF-8; the constructors
    /// establish it and all other methods may rely on it.
    #[verifier::type_invariant]
    spec fn inv(self) -> bool {
        self.wf()
    }

    /// The 32-byte wire image: the UTF-8 encoding of the text, zero-padded.
    pub open spec fn spec_wire(text: Seq<char>) -> Seq<u8> {
        encode_utf8(text) + zero_bytes((32 - encode_utf8(text).len()) as nat)
    }

    /// The text denoted by 32 wire bytes: trailing zero bytes are stripped and
    /// the remainder must be valid UTF-8.
    pub open spec fn spec_parse(bytes: Seq<u8>) -> Result<Seq<char>, ProtocolError>
        recommends
            bytes.len() == 32,
    {
        let stripped = strip_trailing_zeros(bytes);
        if valid_utf8(stripped) {
            Ok(decode_utf8(stripped))
        } else {
            Err(ProtocolError::InvalidLabel)
        }
    }

    /// Creates a label from text already known to fit. The original panics on
    /// longer text; here the length bound is a precondition.
    pub fn new(text: &str) -> (r: Label)
        requires
            encode_utf8(text@).len() <= 32,
        ensures
            r@ == text@,
            r.wf(),
    {
        Label(String::from_str(text))
    }

    /// Creates a label, rejecting text whose UTF-8 encoding is longer than 32
    /// bytes.
    pub fn try_from_string(text: String) -> (r: Result<Label, ProtocolError>)
        ensures
            encode_utf8(text@).len() <= 32 ==> (r matches Ok(l) && l@ == text@),
            encode_utf8(text@).len() > 32 ==> r == Err::<Label, ProtocolError>(
                ProtocolError::InvalidLabel,
            ),
            r matches Ok(l) ==> l.wf(),
    {
        let n = text.as_str().as_bytes().len();
        if n <= 32 {
            Ok(Label(text))
        } else {
            Err(ProtocolError::InvalidLabel)
        }
    }

    /// Appends the 32-byte wire image of this label to `buf`.
    pub fn encode(&self, buf: &mut Vec<u8>)
        ensures
            final(buf)@ == old(buf)@ + Label::spec_wire(self@),
            final(buf)@.len() == old(buf)@.len() + 32,
    {
        proof {
            use_type_invariant(&*self);
        }
        let bytes = self.0.as_str().as_bytes();
        buf.extend_from_slice(bytes);
        let pad = 32 - bytes.len();
        crate::wire::push_zero_bytes(buf, pad);
        assert(buf@ =~= old(buf)@ + Label::spec_wire(self@));
    }

    /// Reads a label from the 32 bytes at offset `i`, stripping trailing zero
    /// bytes and rejecting text that is not valid UTF-8.
    pub fn decode(bytes: &[u8], i: usize) -> (r: Result<Label, ProtocolError>)
        requires
            i + 32 <= bytes@.len(),
        ensures
            match r {
                Ok(l) => Label::spec_parse(bytes@.subrange(i as int, i + 32)) == Ok::<
                    Seq<char>,
                    ProtocolError,
                >(l@) && l.wf(),
                Err(e) => Label::spec_parse(bytes@.subrange(i as int, i + 32)) == Err::<
                    Seq<char>,
                    ProtocolError,
                >(e),
            },
    {
        let ghost sub = bytes@.subrange(i as int, i + 32);
        let n = bytes.len();
        let mut v: Vec<u8> = Vec::new();
        let mut k: usize = 0;
        assert(v@ =~= sub.take(0));
        while k < 32
            invariant
                k <= 32,
                i + 32 <= bytes@.len(),
                n == bytes@.len(),
                v@ == sub.take(k as int),
                sub == bytes@.subrange(i as int, i + 32),
            decreases 32 - k,
        {
            v.push(bytes[i + k]);
            assert(v@ =~= sub.take(k + 1));
            k = k + 1;
        }
        assert(v@ =~= sub);
        while v.len() > 0 && v[v.len() - 1] == 0
            invariant
                strip_trailing_zeros(v@) == strip_trailing_zeros(sub),
            decreases v.len(),
        {
            proof {
                assert(v@.last() == 0);
                assert(strip_trailing_zeros(v@) == strip_trailing_zeros(v@.drop_last()));
            }
            v.pop();
        }
        assert(v@ == strip_trailing_zeros(v@));
        assert(v@ == strip_trailing_zeros(sub));
        proof {
            lemma_strip_len(sub);
        }
        match string_from_utf8(v) {
            Some(text) => {
                proof {
                    decode_utf8_encode_utf8(strip_trailing_zeros(sub));
                }
                Ok(Label(text))
            },
            None => Err(ProtocolError::InvalidLabel),
        }
    }

    /// The label text.
    pub fn as_str(&self) -> (r: &str)
        ensures
            r@ == self@,
    {
        self.0.as_str()
    }

    /// The label text, as an owned string.
    pub fn into_string(self) -> (r: String)
        ensures
            r@ == self@,
    {
        let Label(text) = self;
        text
    }
}

/// Relies on `String::from_utf8`: it succeeds exactly on input that is valid
/// UTF-8 and decodes those bytes, as `str::from_utf8_unchecked` is specified.
#[verifier::external_body]
fn string_from_utf8(v: Vec<u8>) -> (r: Option<String>)
    ensures
        r is Some <==> valid_utf8(v@),
        r matches Some(s) ==> s@ == decode_utf8(v@),
{
    match String::from_utf8(v) {
        Ok(s) => Some(s),
        Err(_) => None,
    }
}

/// Stripping trailing zeros never lengthens a byte sequence.
pub proof fn lemma_strip_len(b: Seq<u8>)
    ensures
        strip_trailing_zeros(b).len() <= b.len(),
    decreases b.len(),
{
    if b.len() > 0 && b.last() == 0 {
        lemma_strip_len(b.drop_last());
    }
}

/// Zero padding does not change the stripped value.
pub proof fn lemma_strip_append_zeros(b: Seq<u8>, n: nat)
    ensures
        strip_trailing_zeros(b + zero_bytes(n)) == strip_trailing_zeros(b),
    decreases n,
{
    if n == 0 {
        assert(b + zero_bytes(0) =~= b);
    } else {
        let w = b + zero_bytes(n);
        assert(w.len() > 0 && w.last() == 0);
        assert(w.drop_last() =~= b + zero_bytes((n - 1) as nat));
        lemma_strip_append_zeros(b, (n - 1) as nat);
    }
}

/// What comes out of a stripping is empty or ends in a nonzero byte.
pub proof fn lemma_strip_ends_nonzero(b: Seq<u8>)
    ensures
        strip_trailing_zeros(b).len() == 0 || strip_trailing_zeros(b).last() != 0,
    decreases b.len(),
{
    if b.len() > 0 && b.last() == 0 {
        lemma_strip_ends_nonzero(b.drop_last());
    }
}

/// The other direction of the round-trip law: whatever comes out of a label
/// parse is normalized. Its UTF-8 encoding fits in 32 bytes - so longer text
/// cannot round-trip at all - and it carries no trailing NUL character.
pub proof fn lemma_label_parse_normalized(b: Seq<u8>, text: Seq<char>)
    requires
        b.len() == 32,
        Label::spec_parse(b) == Ok::<Seq<char>, ProtocolError>(text),
    ensures
        encode_utf8(text).len() <= 32,
        text.len() > 0 ==> text.last() != '\0',
{
    let stripped = strip_trailing_zeros(b);
    lemma_strip_len(b);
    lemma_strip_ends_nonzero(b);
    decode_utf8_encode_utf8(stripped);
    if text.len() > 0 {
        lemma_encode_utf8_last(text);
    }
}

/// The UTF-8 encoding of a scalar is nonempty, and ends in a zero byte exactly
/// when the scalar is zero.
proof fn lemma_encode_scalar_last(s: u32)
    requires
        is_scalar(s),
    ensures
        encode_scalar(s).len() > 0,
        encode_scalar(s).last() == 0 <==> s == 0,
{
    assert(s <= 0x7F ==> (((s & 0x7F) as u8 == 0) <==> s == 0)) by (bit_vector);
    assert((0x80u8 | ((s & 0x3F) as u8)) != 0) by (bit_vector);
}

/// The UTF-8 encoding of nonempty text is nonempty, and ends in a zero byte
/// exactly when the text ends in a NUL character.
pub proof fn lemma_encode_utf8_last(text: Seq<char>)
    requires
        text.len() > 0,
    ensures
        encode_utf8(text).len() > 0,
        (encode_utf8(text).last() == 0) <==> (text.last() == '\0'),
    decreases text.len(),
{
    char_is_scalar(text[0]);
    let s = text[0] as u32;
    lemma_encode_scalar_last(s);
    if text.len() == 1 {
        assert(text[0] == text.last());
        assert(('\0' as u32) == 0);
        if s == 0 {
            vstd::utf8::char_u32_cast(text[0], 0);
            vstd::utf8::char_u32_cast('\0', 0);
            assert(text[0] == '\0');
        }
        assert(encode_utf8(text.drop_first()) =~= Seq::<u8>::empty());
        assert(encode_utf8(text) =~= encode_scalar(s));
    } else {
        let rest = text.drop_first();
        assert(rest.last() == text.last());
        lemma_encode_utf8_last(rest);
        assert(encode_utf8(text).last() == encode_utf8(rest).last());
    }
}

/// A label whose text has no trailing NUL character is recovered exactly from
/// its own 32-byte wire image.
pub proof fn lemma_label_roundtrip(text: Seq<char>)
    requires
        encode_utf8(text).len() <= 32,
        text.len() > 0 ==> text.last() != '\0',
    ensures
        Label::spec_parse(Label::spec_wire(text)) == Ok::<Seq<char>, ProtocolError>(text),
{
    let b = encode_utf8(text);
    lemma_strip_append_zeros(b, (32 - b.len()) as nat);
    if text.len() > 0 {
        lemma_encode_utf8_last(text);
    }
    assert(strip_trailing_zeros(b) == b);
    encode_utf8_valid_utf8(text);
    encode_utf8_decode_utf8(text);
}

} // verus!
