//! How a renderer's outcome travels back over a single string channel: the
//! SVG text as it is, an error as its text after a fixed prefix.

use vstd::prelude::*;
use vstd::utf8::*;

use crate::ctext::{encode_c_string, has_nul, lemma_nul_byte_iff_nul_char, CText};

verus! {

/// The marker that starts the text of a failed conversion.
pub open spec fn error_prefix() -> Seq<char> {
    seq!['E', 'R', 'R', 'O', 'R', ':', ' ']
}

/// The renderer's outcome as character sequences.
pub open spec fn outcome_view(outcome: Result<String, String>) -> Result<Seq<char>, Seq<char>> {
    match outcome {
        Ok(svg) => Ok(svg@),
        Err(msg) => Err(msg@),
    }
}

/// The text that carries an outcome: the SVG text itself, or the error text
/// after the error marker.
pub open spec fn reply_text(outcome: Result<Seq<char>, Seq<char>>) -> Seq<char> {
    match outcome {
        Ok(svg) => svg,
        Err(msg) => error_prefix() + msg,
    }
}

/// The contents of the NUL-terminated string that carries an outcome: the
/// UTF-8 encoding of its text, or nothing when that encoding holds a NUL byte.
pub open spec fn reply(outcome: Result<Seq<char>, Seq<char>>) -> Option<Seq<u8>> {
    let b = encode_utf8(reply_text(outcome));
    if has_nul(b) {
        None
    } else {
        Some(b)
    }
}

/// The contents of an optional string.
pub open spec fn contents(r: Option<CText>) -> Option<Seq<u8>> {
    match r {
        Some(c) => Some(c@),
        None => None,
    }
}

/// Encodes a renderer's outcome as a new NUL-terminated string.
pub fn encode_outcome(outcome: Result<String, String>) -> (r: Option<CText>)
    ensures
        contents(r) == reply(outcome_view(outcome)),
{
    match outcome {
        Ok(svg) => encode_c_string(svg.as_str()),
        Err(msg) => {
            let mut text = String::from_str("ERROR: ");
            proof {
                reveal_strlit("ERROR: ");
                assert(text@ =~= error_prefix());
            }
            text.append(msg.as_str());
            encode_c_string(text.as_str())
        },
    }
}

/// A successful render comes back as the SVG text, unchanged, whenever it
/// holds no NUL character; and it reads as a failure only if the SVG text
/// itself starts with the error marker.
pub proof fn lemma_success_reply(svg: Seq<char>)
    requires
        !svg.contains('\0'),
    ensures
        reply(Ok(svg)) == Some(encode_utf8(svg)),
        decode_utf8(encode_utf8(svg)) == svg,
        !error_prefix().is_prefix_of(svg) ==> !error_prefix().is_prefix_of(
            decode_utf8(encode_utf8(svg)),
        ),
{
    lemma_nul_byte_iff_nul_char(svg);
    encode_utf8_decode_utf8(svg);
}

/// A failed render with error text `msg` comes back as exactly the error
/// marker followed by `msg`, whenever `msg` holds no NUL character.
pub proof fn lemma_failure_reply(msg: Seq<char>)
    requires
        !msg.contains('\0'),
    ensures
        reply(Err(msg)) == Some(encode_utf8(error_prefix() + msg)),
        decode_utf8(encode_utf8(error_prefix() + msg)) == error_prefix() + msg,
        error_prefix().is_prefix_of(decode_utf8(encode_utf8(error_prefix() + msg))),
{
    let text = error_prefix() + msg;
    if text.contains('\0') {
        let k = choose|k: int| 0 <= k < text.len() && text[k] == '\0';
        assert(msg[k - error_prefix().len()] == '\0');
    }
    lemma_nul_byte_iff_nul_char(text);
    encode_utf8_decode_utf8(text);
    assert((error_prefix() + msg).subrange(0, error_prefix().len() as int) =~= error_prefix());
}

/// The contents of every string handed back decode as UTF-8 to the text of
/// the outcome, and that text encodes back to the very same bytes, with no
/// NUL among them, so it can be written again as a NUL-terminated string.
pub proof fn lemma_reply_round_trip(outcome: Result<Seq<char>, Seq<char>>)
    requires
        reply(outcome) is Some,
    ensures
        valid_utf8(reply(outcome)->0),
        decode_utf8(reply(outcome)->0) == reply_text(outcome),
        encode_utf8(decode_utf8(reply(outcome)->0)) == reply(outcome)->0,
        !has_nul(encode_utf8(decode_utf8(reply(outcome)->0))),
{
    let b = reply(outcome)->0;
    encode_utf8_valid_utf8(reply_text(outcome));
    encode_utf8_decode_utf8(reply_text(outcome));
    decode_utf8_encode_utf8(b);
}

} // verus!
