//! Templates as plain function calls.
//!
//! A template is an ordinary function that returns a value implementing
//! [`Render`]. Such values nest: tuples, vectors, options and the tags of
//! [`html`] are all renderable, so a page is one large value that is written
//! out in a single pass through a [`Renderer`].
//!
//! Every renderable value has a mathematical meaning, its *markup*: the bytes
//! it contributes to the output, as a function of how the renderer encodes
//! ordinary text. All executable code in this crate is proved against that
//! meaning.
//!
//! [`dynamic`] holds the rules by which a long-running program asks a fresh
//! copy of its own executable to render a template, [`number`] the decimal
//! numerals of integers, and [`templates`] two small templates as examples.

use vstd::prelude::*;

pub mod dynamic;
pub mod html;
pub mod number;
pub mod templates;

verus! {

/// `std::io::Error`, the error of every write. It is carried through as it
/// came from the renderer; nothing is claimed of what it holds.
#[verifier::external_type_specification]
#[verifier::external_body]
pub struct ExIoError(std::io::Error);

/// A byte string, as the contracts see it.
pub type Bytes = Seq<u8>;

/// A text, as the contracts see it.
pub type Text = Seq<char>;

/// The bytes of a text: its UTF-8 encoding.
pub open spec fn utf8(text: Text) -> Bytes {
    vstd::utf8::encode_utf8(text)
}

/// The bytes of a text that is written in two parts are the bytes of the
/// parts, one after the other.
pub proof fn lemma_utf8_concat(a: Text, b: Text)
    ensures
        utf8(a + b) == utf8(a) + utf8(b),
    decreases a.len(),
{
    if a.len() > 0 {
        assert((a + b).drop_first() =~= a.drop_first() + b);
        lemma_utf8_concat(a.drop_first(), b);
    }
}

/// The way a renderer turns ordinary text into output bytes.
pub type Encoding = spec_fn(Bytes) -> Bytes;

/// The encoding that leaves every byte as it is.
pub open spec fn plain() -> Encoding {
    |data: Bytes| data
}

/// Relates the output before and after an operation that was to append `full`.
///
/// When the operation is `done`, exactly `full` was appended. When it failed,
/// some prefix of `full` was appended and nothing else.
pub open spec fn appended(before: Bytes, after: Bytes, full: Bytes, done: bool) -> bool {
    if done {
        after == before + full
    } else {
        before.is_prefix_of(after) && after.is_prefix_of(before + full)
    }
}

/// An operation that was to append `x`, followed by one that was to append `y`,
/// is an operation that was to append `x + y`.
pub proof fn lemma_appended_then(
    a: Bytes,
    b: Bytes,
    c: Bytes,
    x: Bytes,
    y: Bytes,
    done: bool,
)
    requires
        appended(a, b, x, true),
        appended(b, c, y, done),
    ensures
        appended(a, c, x + y, done),
{
    assert((a + x) + y =~= a + (x + y));
    if !done {
    }
}

/// An operation that failed while appending `x` also failed while appending
/// `x + y`.
pub proof fn lemma_appended_short(a: Bytes, b: Bytes, x: Bytes, y: Bytes)
    requires
        appended(a, b, x, false),
    ensures
        appended(a, b, x + y, false),
{
}

/// A sink for rendered output, responsible for escaping.
pub trait Renderer {
    /// Everything this renderer has put out so far.
    spec fn written(&self) -> Bytes;

    /// What a normal write makes of its data.
    spec fn encoding() -> Encoding;

    /// Whether every write through this kind of renderer succeeds.
    spec fn infallible() -> bool;

    /// Normal write: the data is encoded on its way out.
    fn write(&mut self, data: &[u8]) -> (res: Result<(), std::io::Error>)
        ensures
            appended(
                old(self).written(),
                final(self).written(),
                Self::encoding()(data@),
                res is Ok,
            ),
            Self::infallible() ==> res is Ok,
    ;

    /// Normal write for `&str`.
    fn write_str(&mut self, s: &str) -> (res: Result<(), std::io::Error>)
        ensures
            appended(
                old(self).written(),
                final(self).written(),
                Self::encoding()(utf8(s@)),
                res is Ok,
            ),
            Self::infallible() ==> res is Ok,
    {
        self.write(s.as_bytes())
    }

    /// Raw write: the data goes out as it is.
    fn write_raw(&mut self, data: &[u8]) -> (res: Result<(), std::io::Error>)
        ensures
            appended(old(self).written(), final(self).written(), data@, res is Ok),
            Self::infallible() ==> res is Ok,
    ;

    /// Raw write for `&str`.
    fn write_raw_str(&mut self, s: &str) -> (res: Result<(), std::io::Error>)
        ensures
            appended(
                old(self).written(),
                final(self).written(),
                utf8(s@),
                res is Ok,
            ),
            Self::infallible() ==> res is Ok,
    {
        self.write_raw(s.as_bytes())
    }
}

/// A renderer that escapes nothing: every write through it reaches the
/// renderer inside as a raw write.
pub struct RawRenderer<T>(pub T);

impl<T: Renderer> Renderer for RawRenderer<T> {
    open spec fn written(&self) -> Bytes {
        self.0.written()
    }

    open spec fn encoding() -> Encoding {
        plain()
    }

    open spec fn infallible() -> bool {
        T::infallible()
    }

    fn write(&mut self, data: &[u8]) -> (res: Result<(), std::io::Error>) {
        self.0.write_raw(data)
    }

    fn write_str(&mut self, s: &str) -> (res: Result<(), std::io::Error>) {
        self.0.write_raw_str(s)
    }

    fn write_raw(&mut self, data: &[u8]) -> (res: Result<(), std::io::Error>) {
        self.0.write_raw(data)
    }

    fn write_raw_str(&mut self, s: &str) -> (res: Result<(), std::io::Error>) {
        self.0.write_raw_str(s)
    }
}

/// A value that can be rendered: a part of a template or a whole one, with
/// the blanks already filled in.
pub trait Render {
    /// The bytes this value contributes to the output of a renderer that
    /// encodes ordinary text with `enc`.
    spec fn markup(&self, enc: Encoding) -> Bytes;

    /// Writes the value's markup to `r`. Fails only where `r` does.
    fn render<R: Renderer>(&self, r: &mut R) -> (res: Result<(), std::io::Error>)
        ensures
            appended(old(r).written(), final(r).written(), self.markup(R::encoding()), res is Ok),
            R::infallible() ==> res is Ok,
    ;
}

/// The markup of a run of values: the markup of each, in order.
pub open spec fn markup_all<T: Render>(items: Seq<T>, enc: Encoding) -> Bytes
    decreases items.len(),
{
    if items.len() == 0 {
        Seq::empty()
    } else {
        markup_all(items.drop_last(), enc) + items.last().markup(enc)
    }
}

/// The markup of a run distributes over concatenation.
pub proof fn lemma_markup_all_concat<T: Render>(a: Seq<T>, b: Seq<T>, enc: Encoding)
    ensures
        markup_all(a + b, enc) == markup_all(a, enc) + markup_all(b, enc),
    decreases b.len(),
{
    if b.len() > 0 {
        assert((a + b).drop_last() =~= a + b.drop_last());
        lemma_markup_all_concat(a, b.drop_last(), enc);
    }
}

/// Renders the items of a slice one after the other.
pub fn render_all<T: Render, R: Renderer>(items: &[T], r: &mut R) -> (res: Result<
    (),
    std::io::Error,
>)
    ensures
        appended(
            old(r).written(),
            final(r).written(),
            markup_all(items@, R::encoding()),
            res is Ok,
        ),
        R::infallible() ==> res is Ok,
{
    let ghost before = r.written();
    let ghost enc = R::encoding();
    let mut i: usize = 0;
    while i < items.len()
        invariant
            i <= items.len(),
            before == old(r).written(),
            enc == R::encoding(),
            appended(before, r.written(), markup_all(items@.take(i as int), enc), true),
        decreases items.len() - i,
    {
        let ghost mid = r.written();
        let ghost done = markup_all(items@.take(i as int), enc);
        let res = items[i].render(r);
        proof {
            assert(items@.take(i + 1).drop_last() =~= items@.take(i as int));
            lemma_appended_then(
                before,
                mid,
                r.written(),
                done,
                items@[i as int].markup(enc),
                res is Ok,
            );
        }
        if let Err(e) = res {
            proof {
                assert(items@ =~= items@.take(i + 1) + items@.skip(i + 1));
                lemma_markup_all_concat(items@.take(i + 1), items@.skip(i + 1), enc);
                lemma_appended_short(
                    before,
                    r.written(),
                    markup_all(items@.take(i + 1), enc),
                    markup_all(items@.skip(i + 1), enc),
                );
            }
            return Err(e);
        }
        i += 1;
    }
    proof {
        assert(items@.take(i as int) =~= items@);
    }
    Ok(())
}

impl<T: Render> Render for Vec<T> {
    open spec fn markup(&self, enc: Encoding) -> Bytes {
        markup_all(self@, enc)
    }

    fn render<R: Renderer>(&self, r: &mut R) -> (res: Result<(), std::io::Error>) {
        render_all(self.as_slice(), r)
    }
}

impl<T: Render> Render for [T] {
    open spec fn markup(&self, enc: Encoding) -> Bytes {
        markup_all(self@, enc)
    }

    fn render<R: Renderer>(&self, r: &mut R) -> (res: Result<(), std::io::Error>) {
        render_all(self, r)
    }
}

impl<T: Render, const N: usize> Render for [T; N] {
    open spec fn markup(&self, enc: Encoding) -> Bytes {
        markup_all(self@, enc)
    }

    fn render<R: Renderer>(&self, r: &mut R) -> (res: Result<(), std::io::Error>) {
        render_all(self.as_slice(), r)
    }
}

impl<'a, T: Render + ?Sized> Render for &'a mut T {
    open spec fn markup(&self, enc: Encoding) -> Bytes {
        (**self).markup(enc)
    }

    fn render<R: Renderer>(&self, r: &mut R) -> (res: Result<(), std::io::Error>) {
        (**self).render(r)
    }
}

impl<T: Render + ?Sized> Render for Box<T> {
    open spec fn markup(&self, enc: Encoding) -> Bytes {
        (**self).markup(enc)
    }

    fn render<R: Renderer>(&self, r: &mut R) -> (res: Result<(), std::io::Error>) {
        (**self).render(r)
    }
}

impl Render for () {
    open spec fn markup(&self, enc: Encoding) -> Bytes {
        Seq::empty()
    }

    fn render<R: Renderer>(&self, r: &mut R) -> (res: Result<(), std::io::Error>) {
        Ok(())
    }
}

impl<T: Render> Render for Option<T> {
    open spec fn markup(&self, enc: Encoding) -> Bytes {
        match self {
            Some(inner) => inner.markup(enc),
            None => Seq::empty(),
        }
    }

    fn render<R: Renderer>(&self, r: &mut R) -> (res: Result<(), std::io::Error>) {
        match self {
            Some(inner) => inner.render(r),
            None => {
                Ok(())
            },
        }
    }
}

/// An owned string is taken to be markup already: it goes out as it is.
impl Render for String {
    open spec fn markup(&self, enc: Encoding) -> Bytes {
        utf8(self@)
    }

    fn render<R: Renderer>(&self, r: &mut R) -> (res: Result<(), std::io::Error>) {
        r.write_raw_str(self.as_str())
    }
}

/// A string slice is ordinary text: the renderer encodes it.
impl<'a> Render for &'a str {
    open spec fn markup(&self, enc: Encoding) -> Bytes {
        enc(utf8(self@))
    }

    fn render<R: Renderer>(&self, r: &mut R) -> (res: Result<(), std::io::Error>) {
        r.write_str(self)
    }
}

/// Renders one part of a larger value.
///
/// `done` is what the parts before it have appended since the output was
/// `start`, and `whole` is the markup of the larger value.
pub(crate) fn render_part<T: Render, R: Renderer>(
    part: &T,
    r: &mut R,
    Ghost(start): Ghost<Bytes>,
    Ghost(done): Ghost<Bytes>,
    Ghost(whole): Ghost<Bytes>,
) -> (res: Result<(), std::io::Error>)
    requires
        appended(start, old(r).written(), done, true),
        (done + part.markup(R::encoding())).is_prefix_of(whole),
    ensures
        res is Ok ==> appended(
            start,
            final(r).written(),
            done + part.markup(R::encoding()),
            true,
        ),
        res is Err ==> appended(start, final(r).written(), whole, false),
        R::infallible() ==> res is Ok,
{
    let ghost mid = r.written();
    let res = part.render(r);
    proof {
        lemma_appended_then(start, mid, r.written(), done, part.markup(R::encoding()), res is Ok);
    }
    res
}

/// Writes a text raw, as one part of a larger value.
///
/// `done` is what the parts before it have appended since the output was
/// `start`, and `whole` is the markup of the larger value.
pub(crate) fn raw_part<R: Renderer>(
    text: &str,
    r: &mut R,
    Ghost(start): Ghost<Bytes>,
    Ghost(done): Ghost<Bytes>,
    Ghost(whole): Ghost<Bytes>,
) -> (res: Result<(), std::io::Error>)
    requires
        appended(start, old(r).written(), done, true),
        (done + utf8(text@)).is_prefix_of(whole),
    ensures
        res is Ok ==> appended(start, final(r).written(), done + utf8(text@), true),
        res is Err ==> appended(start, final(r).written(), whole, false),
        R::infallible() ==> res is Ok,
{
    let ghost mid = r.written();
    let res = r.write_raw_str(text);
    proof {
        lemma_appended_then(start, mid, r.written(), done, utf8(text@), res is Ok);
    }
    res
}

impl<A: Render> Render for (A,) {
    open spec fn markup(&self, enc: Encoding) -> Bytes {
        self.0.markup(enc)
    }

    fn render<R: Renderer>(&self, r: &mut R) -> (res: Result<(), std::io::Error>) {
        self.0.render(r)
    }
}

impl<A: Render, B: Render> Render for (A, B) {
    open spec fn markup(&self, enc: Encoding) -> Bytes {
        self.0.markup(enc) + self.1.markup(enc)
    }

    fn render<R: Renderer>(&self, r: &mut R) -> (res: Result<(), std::io::Error>) {
        let ghost start = r.written();
        let ghost enc = R::encoding();
        let ghost whole = self.markup(enc);
        let ghost done = Bytes::empty();
        let res = render_part(&self.0, r, Ghost(start), Ghost(done), Ghost(whole));
        if res.is_err() {
            return res;
        }
        let ghost done = done + self.0.markup(enc);
        let res = render_part(&self.1, r, Ghost(start), Ghost(done), Ghost(whole));
        if res.is_err() {
            return res;
        }
        res
    }
}

impl<A: Render, B: Render, C: Render> Render for (A, B, C) {
    open spec fn markup(&self, enc: Encoding) -> Bytes {
        self.0.markup(enc) + self.1.markup(enc) + self.2.markup(enc)
    }

    fn render<R: Renderer>(&self, r: &mut R) -> (res: Result<(), std::io::Error>) {
        let ghost start = r.written();
        let ghost enc = R::encoding();
        let ghost whole = self.markup(enc);
        let ghost done = Bytes::empty();
        let res = render_part(&self.0, r, Ghost(start), Ghost(done), Ghost(whole));
        if res.is_err() {
            return res;
        }
        let ghost done = done + self.0.markup(enc);
        let res = render_part(&self.1, r, Ghost(start), Ghost(done), Ghost(whole));
        if res.is_err() {
            return res;
        }
        let ghost done = done + self.1.markup(enc);
        let res = render_part(&self.2, r, Ghost(start), Ghost(done), Ghost(whole));
        if res.is_err() {
            return res;
        }
        res
    }
}

impl<A: Render, B: Render, C: Render, D: Render> Render for (A, B, C, D) {
    open spec fn markup(&self, enc: Encoding) -> Bytes {
        self.0.markup(enc) + self.1.markup(enc) + self.2.markup(enc) + self.3.markup(enc)
    }

    fn render<R: Renderer>(&self, r: &mut R) -> (res: Result<(), std::io::Error>) {
        let ghost start = r.written();
        let ghost enc = R::encoding();
        let ghost whole = self.markup(enc);
        let ghost done = Bytes::empty();
        let res = render_part(&self.0, r, Ghost(start), Ghost(done), Ghost(whole));
        if res.is_err() {
            return res;
        }
        let ghost done = done + self.0.markup(enc);
        let res = render_part(&self.1, r, Ghost(start), Ghost(done), Ghost(whole));
        if res.is_err() {
            return res;
        }
        let ghost done = done + self.1.markup(enc);
        let res = render_part(&self.2, r, Ghost(start), Ghost(done), Ghost(whole));
        if res.is_err() {
            return res;
        }
        let ghost done = done + self.2.markup(enc);
        let res = render_part(&self.3, r, Ghost(start), Ghost(done), Ghost(whole));
        if res.is_err() {
            return res;
        }
        res
    }
}

impl<A: Render, B: Render, C: Render, D: Render, E: Render> Render for (A, B, C, D, E) {
    open spec fn markup(&self, enc: Encoding) -> Bytes {
        self.0.markup(enc) + self.1.markup(enc) + self.2.markup(enc) + self.3.markup(enc) + self.4.markup(enc)
    }

    fn render<R: Renderer>(&self, r: &mut R) -> (res: Result<(), std::io::Error>) {
        let ghost start = r.written();
        let ghost enc = R::encoding();
        let ghost whole = self.markup(enc);
        let ghost done = Bytes::empty();
        let res = render_part(&self.0, r, Ghost(start), Ghost(done), Ghost(whole));
        if res.is_err() {
            return res;
        }
        let ghost done = done + self.0.markup(enc);
        let res = render_part(&self.1, r, Ghost(start), Ghost(done), Ghost(whole));
        if res.is_err() {
            return res;
        }
        let ghost done = done + self.1.markup(enc);
        let res = render_part(&self.2, r, Ghost(start), Ghost(done), Ghost(whole));
        if res.is_err() {
            return res;
        }
        let ghost done = done + self.2.markup(enc);
        let res = render_part(&self.3, r, Ghost(start), Ghost(done), Ghost(whole));
        if res.is_err() {
            return res;
        }
        let ghost done = done + self.3.markup(enc);
        let res = render_part(&self.4, r, Ghost(start), Ghost(done), Ghost(whole));
        if res.is_err() {
            return res;
        }
        res
    }
}

impl<A: Render, B: Render, C: Render, D: Render, E: Render, F: Render> Render for (A, B, C, D, E, F) {
    open spec fn markup(&self, enc: Encoding) -> Bytes {
        self.0.markup(enc) + self.1.markup(enc) + self.2.markup(enc) + self.3.markup(enc) + self.4.markup(enc) + self.5.markup(enc)
    }

    fn render<R: Renderer>(&self, r: &mut R) -> (res: Result<(), std::io::Error>) {
        let ghost start = r.written();
        let ghost enc = R::encoding();
        let ghost whole = self.markup(enc);
        let ghost done = Bytes::empty();
        let res = render_part(&self.0, r, Ghost(start), Ghost(done), Ghost(whole));
        if res.is_err() {
            return res;
        }
        let ghost done = done + self.0.markup(enc);
        let res = render_part(&self.1, r, Ghost(start), Ghost(done), Ghost(whole));
        if res.is_err() {
            return res;
        }
        let ghost done = done + self.1.markup(enc);
        let res = render_part(&self.2, r, Ghost(start), Ghost(done), Ghost(whole));
        if res.is_err() {
            return res;
        }
        let ghost done = done + self.2.markup(enc);
        let res = render_part(&self.3, r, Ghost(start), Ghost(done), Ghost(whole));
        if res.is_err() {
            return res;
        }
        let ghost done = done + self.3.markup(enc);
        let res = render_part(&self.4, r, Ghost(start), Ghost(done), Ghost(whole));
        if res.is_err() {
            return res;
        }
        let ghost done = done + self.4.markup(enc);
        let res = render_part(&self.5, r, Ghost(start), Ghost(done), Ghost(whole));
        if res.is_err() {
            return res;
        }
        res
    }
}

impl<A: Render, B: Render, C: Render, D: Render, E: Render, F: Render, G: Render> Render for (A, B, C, D, E, F, G) {
    open spec fn markup(&self, enc: Encoding) -> Bytes {
        self.0.markup(enc) + self.1.markup(enc) + self.2.markup(enc) + self.3.markup(enc) + self.4.markup(enc) + self.5.markup(enc) + self.6.markup(enc)
    }

    fn render<R: Renderer>(&self, r: &mut R) -> (res: Result<(), std::io::Error>) {
        let ghost start = r.written();
        let ghost enc = R::encoding();
        let ghost whole = self.markup(enc);
        let ghost done = Bytes::empty();
        let res = render_part(&self.0, r, Ghost(start), Ghost(done), Ghost(whole));
        if res.is_err() {
            return res;
        }
        let ghost done = done + self.0.markup(enc);
        let res = render_part(&self.1, r, Ghost(start), Ghost(done), Ghost(whole));
        if res.is_err() {
            return res;
        }
        let ghost done = done + self.1.markup(enc);
        let res = render_part(&self.2, r, Ghost(start), Ghost(done), Ghost(whole));
        if res.is_err() {
            return res;
        }
        let ghost done = done + self.2.markup(enc);
        let res = render_part(&self.3, r, Ghost(start), Ghost(done), Ghost(whole));
        if res.is_err() {
            return res;
        }
        let ghost done = done + self.3.markup(enc);
        let res = render_part(&self.4, r, Ghost(start), Ghost(done), Ghost(whole));
        if res.is_err() {
            return res;
        }
        let ghost done = done + self.4.markup(enc);
        let res = render_part(&self.5, r, Ghost(start), Ghost(done), Ghost(whole));
        if res.is_err() {
            return res;
        }
        let ghost done = done + self.5.markup(enc);
        let res = render_part(&self.6, r, Ghost(start), Ghost(done), Ghost(whole));
        if res.is_err() {
            return res;
        }
        res
    }
}

impl<A: Render, B: Render, C: Render, D: Render, E: Render, F: Render, G: Render, H: Render> Render for (A, B, C, D, E, F, G, H) {
    open spec fn markup(&self, enc: Encoding) -> Bytes {
        self.0.markup(enc) + self.1.markup(enc) + self.2.markup(enc) + self.3.markup(enc) + self.4.markup(enc) + self.5.markup(enc) + self.6.markup(enc) + self.7.markup(enc)
    }

    fn render<R: Renderer>(&self, r: &mut R) -> (res: Result<(), std::io::Error>) {
        let ghost start = r.written();
        let ghost enc = R::encoding();
        let ghost whole = self.markup(enc);
        let ghost done = Bytes::empty();
        let res = render_part(&self.0, r, Ghost(start), Ghost(done), Ghost(whole));
        if res.is_err() {
            return res;
        }
        let ghost done = done + self.0.markup(enc);
        let res = render_part(&self.1, r, Ghost(start), Ghost(done), Ghost(whole));
        if res.is_err() {
            return res;
        }
        let ghost done = done + self.1.markup(enc);
        let res = render_part(&self.2, r, Ghost(start), Ghost(done), Ghost(whole));
        if res.is_err() {
            return res;
        }
        let ghost done = done + self.2.markup(enc);
        let res = render_part(&self.3, r, Ghost(start), Ghost(done), Ghost(whole));
        if res.is_err() {
            return res;
        }
        let ghost done = done + self.3.markup(enc);
        let res = render_part(&self.4, r, Ghost(start), Ghost(done), Ghost(whole));
        if res.is_err() {
            return res;
        }
        let ghost done = done + self.4.markup(enc);
        let res = render_part(&self.5, r, Ghost(start), Ghost(done), Ghost(whole));
        if res.is_err() {
            return res;
        }
        let ghost done = done + self.5.markup(enc);
        let res = render_part(&self.6, r, Ghost(start), Ghost(done), Ghost(whole));
        if res.is_err() {
            return res;
        }
        let ghost done = done + self.6.markup(enc);
        let res = render_part(&self.7, r, Ghost(start), Ghost(done), Ghost(whole));
        if res.is_err() {
            return res;
        }
        res
    }
}

} // verus!
