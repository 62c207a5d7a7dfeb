//! The two operations of the boundary: converting a source text to an owned
//! string, and releasing such a string.

use vstd::prelude::*;
use vstd::utf8::*;

use crate::ctext::CText;
use crate::reply::{contents, encode_outcome, outcome_view, reply};

verus! {

/// Relies on `std::str::from_utf8`: it accepts exactly the well-formed UTF-8
/// byte sequences and reads them as the text they encode.
#[verifier::external_body]
fn utf8_text(bytes: &[u8]) -> (r: Option<&str>)
    ensures
        r is Some <==> valid_utf8(bytes@),
        r matches Some(text) ==> text@ == decode_utf8(bytes@),
{
    std::str::from_utf8(bytes).ok()
}

/// Converts a TeX/TikZ source, given as the bytes of a NUL-terminated string
/// without the NUL, to a new NUL-terminated string, with `render` standing for
/// the renderer.
///
/// Bytes that are not UTF-8 give no string, and `render` is not called.
/// Otherwise the decoded text goes to `render` once, and the result carries
/// its outcome: the SVG text, or `"ERROR: "` followed by the error text; there
/// is none when that text holds a NUL.
pub fn tikz_to_svg<F>(input: &[u8], render: F) -> (r: Option<CText>) where
    F: Fn(&str) -> Result<String, String>,

    requires
        forall|text: &str| render.requires((text,)),
    ensures
        !valid_utf8(input@) ==> r is None,
        valid_utf8(input@) ==> exists|text: &str, outcome: Result<String, String>|
            {
                &&& text@ == decode_utf8(input@)
                &&& #[trigger] render.ensures((text,), outcome)
                &&& contents(r) == reply(outcome_view(outcome))
            },
{
    match utf8_text(input) {
        None => None,
        Some(text) => {
            let outcome = render(text);
            let ghost seen = outcome;
            let r = encode_outcome(outcome);
            assert(render.ensures((text,), seen));
            r
        },
    }
}

/// Releases a string handed out by a conversion; releasing none does nothing.
///
/// The handle is taken by value, so it cannot be used or released again.
pub fn free_string(s: Option<CText>) {
    match s {
        Some(c) => {
            let _released: Vec<u8> = c.into_bytes_with_nul();
        },
        None => {},
    }
}

} // verus!
