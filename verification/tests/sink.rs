use stpl::html::{div, p, raw, RenderExt};
use stpl::{render_all, Bytes, Encoding, Render, Renderer};
use std::io::{Error, ErrorKind};

/// A sink that takes a fixed number of bytes and then fails.
struct Limited {
    taken: Vec<u8>,
    room: usize,
}

impl Limited {
    fn new(room: usize) -> Limited {
        Limited { taken: Vec::new(), room }
    }
}

impl Renderer for Limited {
    fn written(&self) -> Bytes {
        unreachable!()
    }

    fn encoding() -> Encoding {
        unreachable!()
    }

    fn infallible() -> bool {
        unreachable!()
    }

    fn write(&mut self, data: &[u8]) -> Result<(), Error> {
        let mut escaped: Vec<u8> = Vec::new();
        escaped.write(data)?;
        self.write_raw(&escaped)
    }

    fn write_raw(&mut self, data: &[u8]) -> Result<(), Error> {
        let fits = data.len().min(self.room - self.taken.len());
        self.taken.extend_from_slice(&data[..fits]);
        if fits < data.len() {
            Err(Error::new(ErrorKind::WriteZero, "sink is full"))
        } else {
            Ok(())
        }
    }
}

fn page() -> impl Render {
    div().id("a").call_once((p().call_once("1 < 2"), vec![7u32, 8, 9], raw("<hr>"), Some("&")))
}

#[test]
fn roomy_sink_takes_the_whole_markup() {
    let whole = page().render_to_vec();
    let mut sink = Limited::new(whole.len());
    assert!(page().render(&mut sink).is_ok());
    assert_eq!(sink.taken, whole);
}

#[test]
fn failing_sink_fails_the_render() {
    let whole = page().render_to_vec();
    for room in 0..whole.len() {
        let mut sink = Limited::new(room);
        assert!(page().render(&mut sink).is_err());
    }
}

#[test]
fn failed_render_leaves_a_prefix_of_the_markup() {
    let whole = page().render_to_vec();
    for room in 0..whole.len() {
        let mut sink = Limited::new(room);
        let _ = page().render(&mut sink);
        assert_eq!(sink.taken, whole[..room].to_vec());
    }
}

#[test]
fn failed_render_of_a_run_leaves_a_prefix() {
    let items = ["ab", "<", "cd"];
    let mut sink = Limited::new(4);
    assert!(render_all(&items[..], &mut sink).is_err());
    assert_eq!(sink.taken, b"ab&l".to_vec());
}

#[test]
fn render_appends_to_earlier_output() {
    let mut out: Vec<u8> = b"<!-- x -->".to_vec();
    page().render(&mut out).unwrap();
    let mut expected = b"<!-- x -->".to_vec();
    expected.extend_from_slice(&page().render_to_vec());
    assert_eq!(out, expected);
}

#[test]
fn markup_of_the_example_is_exact() {
    assert_eq!(
        page().render_to_string(),
        "<div id=\"a\"><p>1 &lt; 2</p>789<hr>&amp;</div>".to_string()
    );
}
