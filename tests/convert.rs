use std::cell::Cell;

use tikz_ffi::{encode_c_string, encode_outcome, free_string, tikz_to_svg, CText};

fn svg_stand_in(_text: &str) -> Result<String, String> {
    Ok(String::from(
        "<svg xmlns=\"http://www.w3.org/2000/svg\"><path d=\"M0 0L1 1\"/></svg>",
    ))
}

fn text_of(c: &CText) -> String {
    let bytes = c.as_bytes_with_nul();
    assert_eq!(bytes.last(), Some(&0u8));
    String::from_utf8(bytes[..bytes.len() - 1].to_vec()).unwrap()
}

#[test]
fn test_tikz_to_svg() {
    let tikz_code = r#"
\begin{document}
\begin{tikzpicture}
\draw (0,0) -- (1,1);
\end{tikzpicture}
\end{document}
"#;
    let result = tikz_to_svg(tikz_code.as_bytes(), svg_stand_in);
    assert!(result.is_some());
    let svg = text_of(result.as_ref().unwrap());
    println!("SVG output: {}", svg);
    assert!(svg.contains("<svg") || svg.contains("ERROR"));
    free_string(result);
}

#[test]
fn success_payload_comes_back_verbatim() {
    let input = "\\begin{document}\\begin{tikzpicture}\\draw (0,0) -- (1,1);\\end{tikzpicture}\\end{document}";
    let result = tikz_to_svg(input.as_bytes(), svg_stand_in).unwrap();
    let svg = text_of(&result);
    assert_eq!(svg, svg_stand_in(input).unwrap());
    assert!(svg.contains("<svg"));
    assert!(!svg.starts_with("ERROR: "));
}

#[test]
fn renderer_sees_the_decoded_text() {
    let input = "\\draw (0,0) node {é ü 漢};";
    let result = tikz_to_svg(input.as_bytes(), |t: &str| Ok(t.to_string())).unwrap();
    assert_eq!(result.len(), input.len());
    assert_eq!(text_of(&result), input);
}

#[test]
fn failure_is_prefixed_with_error_marker() {
    let result = tikz_to_svg(b"\\unknown", |_t: &str| {
        Err(String::from("unsupported command"))
    });
    let text = text_of(result.as_ref().unwrap());
    assert_eq!(text, "ERROR: unsupported command");
    free_string(result);
}

#[test]
fn encode_outcome_of_failure_is_exact() {
    let r = encode_outcome(Err(String::from("unsupported command"))).unwrap();
    assert_eq!(r.as_bytes_with_nul(), b"ERROR: unsupported command\0");
    assert_eq!(r.len(), 26);
}

#[test]
fn encode_outcome_of_success_is_the_payload() {
    let r = encode_outcome(Ok(String::from("<svg/>"))).unwrap();
    assert_eq!(r.into_bytes_with_nul(), b"<svg/>\0".to_vec());
}

#[test]
fn failure_with_empty_description() {
    let r = encode_outcome(Err(String::new())).unwrap();
    assert_eq!(r.as_bytes_with_nul(), b"ERROR: \0");
}

#[test]
fn invalid_continuation_byte_gives_none() {
    let calls = Cell::new(0u32);
    let input: [u8; 4] = [b'a', 0xC3, 0x28, b'b'];
    let result = tikz_to_svg(&input, |_t: &str| {
        calls.set(calls.get() + 1);
        Ok(String::from("<svg/>"))
    });
    assert!(result.is_none());
    assert_eq!(calls.get(), 0);
}

#[test]
fn other_invalid_utf8_gives_none() {
    let cases: [&[u8]; 5] = [
        &[0xFF],
        &[0x80],
        &[0xE2, 0x82],
        &[0xED, 0xA0, 0x80],
        &[0xC0, 0xAF],
    ];
    for case in cases {
        assert!(tikz_to_svg(case, svg_stand_in).is_none());
    }
}

#[test]
fn payload_with_nul_gives_none() {
    let r = tikz_to_svg(b"x", |_t: &str| Ok(String::from("<svg>\0</svg>")));
    assert!(r.is_none());
    let r = tikz_to_svg(b"x", |_t: &str| Err(String::from("bad\0byte")));
    assert!(r.is_none());
}

#[test]
fn empty_input_and_empty_payload() {
    let seen = Cell::new(false);
    let r = tikz_to_svg(b"", |t: &str| {
        seen.set(t.is_empty());
        Ok(String::new())
    })
    .unwrap();
    assert!(seen.get());
    assert_eq!(r.len(), 0);
    assert_eq!(r.as_bytes_with_nul(), b"\0");
}

#[test]
fn release_of_none_does_nothing() {
    free_string(None);
}

#[test]
fn release_of_a_returned_string() {
    let r = tikz_to_svg(b"\\draw (0,0);", svg_stand_in);
    assert!(r.is_some());
    free_string(r);
}

#[test]
fn returned_bytes_round_trip() {
    let payload = "<svg><text>ü → ∞ 𝄞</text></svg>";
    let r = tikz_to_svg(b"x", |_t: &str| Ok(payload.to_string())).unwrap();
    let with_nul = r.as_bytes_with_nul().to_vec();
    let text = std::str::from_utf8(&with_nul[..with_nul.len() - 1]).unwrap();
    assert_eq!(text, payload);
    let mut again = text.as_bytes().to_vec();
    again.push(0);
    assert_eq!(again, with_nul);
}

#[test]
fn encode_c_string_multibyte_and_nul() {
    let c = encode_c_string("é").unwrap();
    assert_eq!(c.as_bytes_with_nul(), &[0xC3, 0xA9, 0x00]);
    assert!(encode_c_string("a\0b").is_none());
    assert!(encode_c_string("\0").is_none());
    assert_eq!(encode_c_string("").unwrap().as_bytes_with_nul(), b"\0");
}
