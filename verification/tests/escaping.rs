use stpl::html::RenderExt;
use stpl::{Encoding, RawRenderer, Render, Renderer};

fn written(data: &[u8]) -> Vec<u8> {
    let mut out: Vec<u8> = Vec::new();
    out.write(data).unwrap();
    out
}

#[test]
fn ampersand_is_escaped() {
    assert_eq!(written(b"&"), b"&amp;".to_vec());
}

#[test]
fn less_than_is_escaped() {
    assert_eq!(written(b"<"), b"&lt;".to_vec());
}

#[test]
fn greater_than_is_escaped() {
    assert_eq!(written(b">"), b"&gt;".to_vec());
}

#[test]
fn double_quote_is_escaped() {
    assert_eq!(written(b"\""), b"&quot;".to_vec());
}

#[test]
fn single_quote_is_escaped() {
    assert_eq!(written(b"'"), b"&#x27;".to_vec());
}

#[test]
fn slash_is_escaped() {
    assert_eq!(written(b"/"), b"&#x2F;".to_vec());
}

#[test]
fn grave_accent_is_escaped() {
    assert_eq!(written(b"`"), b"&#96;".to_vec());
}

#[test]
fn other_bytes_pass_unchanged() {
    let mut all: Vec<u8> = Vec::new();
    for c in 0..=255u8 {
        if !b"&<>\"'/`".contains(&c) {
            all.push(c);
        }
    }
    assert_eq!(written(&all), all);
}

#[test]
fn empty_data_writes_nothing() {
    assert_eq!(written(b""), Vec::<u8>::new());
}

#[test]
fn mixed_text_is_escaped_in_order() {
    assert_eq!(
        written(b"<a href=\"/x?a=1&b=2\">it's `ok`</a>"),
        b"&lt;a href=&quot;&#x2F;x?a=1&amp;b=2&quot;&gt;it&#x27;s &#96;ok&#96;&lt;&#x2F;a&gt;"
            .to_vec()
    );
}

#[test]
fn escaping_distributes_over_concatenation() {
    let first: &[u8] = b"a<b & ";
    let second: &[u8] = b"\"c\" > d";
    let mut joined = first.to_vec();
    joined.extend_from_slice(second);
    let mut parts = written(first);
    parts.extend_from_slice(&written(second));
    assert_eq!(written(&joined), parts);
}

#[test]
fn escaped_text_holds_no_markup_bytes() {
    let all: Vec<u8> = (0..=255u8).collect();
    let escaped = written(&all);
    for c in escaped {
        assert!(!b"<>\"'/`".contains(&c));
    }
}

#[test]
fn writes_append_to_what_is_there() {
    let mut out: Vec<u8> = b"x".to_vec();
    out.write(b"<").unwrap();
    out.write_raw(b"<").unwrap();
    out.write_str(">").unwrap();
    out.write_raw_str(">").unwrap();
    assert_eq!(out, b"x&lt;<&gt;>".to_vec());
}

#[test]
fn raw_write_is_verbatim() {
    let mut out: Vec<u8> = Vec::new();
    out.write_raw(b"<b>&</b>").unwrap();
    assert_eq!(out, b"<b>&</b>".to_vec());
}

#[test]
fn raw_renderer_escapes_nothing() {
    let mut raw = RawRenderer(Vec::<u8>::new());
    raw.write(b"<1>").unwrap();
    raw.write_str("<2>").unwrap();
    raw.write_raw(b"<3>").unwrap();
    raw.write_raw_str("<4>").unwrap();
    assert_eq!(raw.0, b"<1><2><3><4>".to_vec());
}

#[test]
fn non_ascii_text_passes_unchanged() {
    assert_eq!("Ciężarkiewicz".render_to_vec(), "Ciężarkiewicz".as_bytes().to_vec());
}

#[test]
fn render_to_string_decodes_the_markup() {
    assert_eq!("a<b → c".render_to_string(), "a&lt;b → c".to_string());
}

struct Bytes(Vec<u8>);

impl Render for Bytes {
    fn markup(&self, _: Encoding) -> stpl::Bytes {
        unreachable!()
    }

    fn render<R: Renderer>(&self, r: &mut R) -> Result<(), std::io::Error> {
        r.write_raw(&self.0)
    }
}

#[test]
fn render_to_string_replaces_malformed_bytes() {
    assert_eq!(Bytes(vec![b'a', 0xff, b'b']).render_to_string(), "a\u{fffd}b".to_string());
}
