//! Owned NUL-terminated byte strings.

use vstd::prelude::*;
use vstd::utf8::*;

verus! {

/// Whether a byte sequence holds a NUL byte.
pub open spec fn has_nul(b: Seq<u8>) -> bool {
    b.contains(0u8)
}

/// The UTF-8 encoding of a single scalar value holds a NUL byte exactly when
/// the value is zero: every byte of a longer encoding has its high bit set.
proof fn lemma_scalar_nul(v: u32)
    requires
        is_scalar(v),
    ensures
        encode_scalar(v).contains(0u8) <==> v == 0,
{
    let e = encode_scalar(v);
    if has_width_1_encoding(v) {
        assert(((v & 0x7F) as u8 == 0u8) <==> v == 0) by (bit_vector)
            requires
                v <= 0x7F,
        ;
        assert(e[0] == leading_byte_width_1(v));
        if v == 0 {
            assert(e[0] == 0u8);
        }
    } else {
        assert((0xC0u8 | ((v >> 6) & 0x1F) as u8) != 0u8) by (bit_vector);
        assert((0xE0u8 | ((v >> 12) & 0x0F) as u8) != 0u8) by (bit_vector);
        assert((0xF0u8 | ((v >> 18) & 0x7) as u8) != 0u8) by (bit_vector);
        assert((0x80u8 | (v & 0x3F) as u8) != 0u8) by (bit_vector);
        assert((0x80u8 | ((v >> 6) & 0x3F) as u8) != 0u8) by (bit_vector);
        assert((0x80u8 | ((v >> 12) & 0x3F) as u8) != 0u8) by (bit_vector);
        assert forall|j: int| 0 <= j < e.len() implies e[j] != 0u8 by {}
    }
}

/// The UTF-8 encoding of a text holds a NUL byte exactly when the text holds
/// the NUL character.
pub proof fn lemma_nul_byte_iff_nul_char(t: Seq<char>)
    ensures
        has_nul(encode_utf8(t)) <==> t.contains('\0'),
    decreases t.len(),
{
    if t.len() > 0 {
        let rest = t.drop_first();
        char_is_scalar(t[0]);
        let a = encode_scalar(t[0] as u32);
        let b = encode_utf8(rest);
        lemma_nul_byte_iff_nul_char(rest);
        lemma_scalar_nul(t[0] as u32);
        assert(encode_utf8(t) == a + b);
        if has_nul(a + b) {
            let j = choose|j: int| 0 <= j < (a + b).len() && (a + b)[j] == 0u8;
            if j < a.len() {
                assert(a[j] == 0u8);
                assert(t[0] as u32 == 0);
                char_u32_cast(t[0], 0u32);
                char_u32_cast('\0', 0u32);
                assert(t[0] == '\0');
            } else {
                assert(b[j - a.len()] == 0u8);
                let k = choose|k: int| 0 <= k < rest.len() && rest[k] == '\0';
                assert(t[k + 1] == '\0');
            }
        }
        if t.contains('\0') {
            let k = choose|k: int| 0 <= k < t.len() && t[k] == '\0';
            if k == 0 {
                let j = choose|j: int| 0 <= j < a.len() && a[j] == 0u8;
                assert((a + b)[j] == 0u8);
            } else {
                assert(rest[k - 1] == '\0');
                let j = choose|j: int| 0 <= j < b.len() && b[j] == 0u8;
                assert((a + b)[a.len() + j] == 0u8);
            }
        }
    }
}

/// An owned NUL-terminated byte string: its contents followed by a single
/// NUL byte, with no NUL among the contents.
///
/// The handle is moved, never copied, so each one is released exactly once.
pub struct CText {
    bytes: Vec<u8>,
}

impl CText {
    #[verifier::type_invariant]
    spec fn terminated(&self) -> bool {
        &&& self.bytes@.len() > 0
        &&& self.bytes@.last() == 0u8
        &&& !has_nul(self.bytes@.drop_last())
    }

    /// The contents and the terminating NUL.
    pub fn as_bytes_with_nul(&self) -> (r: &[u8])
        ensures
            r@ == self@.push(0u8),
    {
        proof {
            use_type_invariant(self);
            assert(self.bytes@ =~= self.bytes@.drop_last().push(0u8));
        }
        self.bytes.as_slice()
    }

    /// Gives up the handle for its contents and the terminating NUL.
    pub fn into_bytes_with_nul(self) -> (r: Vec<u8>)
        ensures
            r@ == self@.push(0u8),
    {
        proof {
            use_type_invariant(&self);
            assert(self.bytes@ =~= self.bytes@.drop_last().push(0u8));
        }
        self.bytes
    }

    /// The number of bytes before the terminating NUL.
    pub fn len(&self) -> (r: usize)
        ensures
            r == self@.len(),
    {
        proof {
            use_type_invariant(self);
        }
        self.bytes.len() - 1
    }
}

impl View for CText {
    type V = Seq<u8>;

    /// The contents, without the terminating NUL.
    closed spec fn view(&self) -> Seq<u8> {
        self.bytes@.drop_last()
    }
}

/// Encodes `text` as UTF-8 in a new NUL-terminated string; there is none
/// when the text holds a NUL character, the one character whose encoding
/// holds a NUL byte.
pub fn encode_c_string(text: &str) -> (r: Option<CText>)
    ensures
        r is None <==> has_nul(encode_utf8(text@)),
        r is None <==> text@.contains('\0'),
        r matches Some(c) ==> c@ == encode_utf8(text@),
{
    proof {
        lemma_nul_byte_iff_nul_char(text@);
    }
    let bytes = text.as_bytes();
    let mut out: Vec<u8> = Vec::new();
    let mut i: usize = 0;
    while i < bytes.len()
        invariant
            i <= bytes@.len(),
            bytes@ == encode_utf8(text@),
            has_nul(bytes@) <==> text@.contains('\0'),
            out@ == bytes@.subrange(0, i as int),
            forall|j: int| 0 <= j < i ==> bytes@[j] != 0u8,
        decreases bytes.len() - i,
    {
        if bytes[i] == 0u8 {
            assert(bytes@[i as int] == 0u8);
            return None;
        }
        out.push(bytes[i]);
        i += 1;
        assert(out@ =~= bytes@.subrange(0, i as int));
    }
    assert(out@ =~= bytes@);
    assert(!has_nul(bytes@));
    out.push(0u8);
    assert(out@.drop_last() =~= bytes@);
    Some(CText { bytes: out })
}

} // verus!
