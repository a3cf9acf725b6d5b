//! HTML rendering: escaping, tags and attributes.

use crate::{raw_part, render_part, Bytes, Encoding, Render, Renderer, Text};
use vstd::prelude::*;

pub mod attrs;
pub mod tags;

pub use tags::{
    a, b, blockquote, body, button, div, footer, form, h1, h2, h3, h4, h5, head, html, i, img,
    input, label, li, link, main, meta, nav, ol, p, pre, script, section, span, string, table,
    tbody, td, textarea, th, thead, title, tr, tt, u, ul, wrapper,
};

verus! {

/// What HTML escaping makes of one byte.
///
/// The seven bytes that can open or close markup, an attribute value or a
/// character reference are replaced by character references; every other byte
/// stands for itself.
pub open spec fn escape_byte(c: u8) -> Bytes {
    if c as char == '&' {
        crate::utf8("&amp;"@)
    } else if c as char == '<' {
        crate::utf8("&lt;"@)
    } else if c as char == '>' {
        crate::utf8("&gt;"@)
    } else if c as char == '"' {
        crate::utf8("&quot;"@)
    } else if c as char == '\'' {
        crate::utf8("&#x27;"@)
    } else if c as char == '/' {
        crate::utf8("&#x2F;"@)
    } else if c as char == '`' {
        crate::utf8("&#96;"@)
    } else {
        seq![c]
    }
}

/// What HTML escaping makes of a byte string: the escapes of its bytes, in
/// order.
pub open spec fn escape(data: Bytes) -> Bytes
    decreases data.len(),
{
    if data.len() == 0 {
        Seq::empty()
    } else {
        escape(data.drop_last()) + escape_byte(data.last())
    }
}

/// The encoding of a renderer that escapes for HTML.
pub open spec fn escaping() -> Encoding {
    |data: Bytes| escape(data)
}

/// Escaping distributes over concatenation.
pub proof fn lemma_escape_concat(a: Bytes, b: Bytes)
    ensures
        escape(a + b) == escape(a) + escape(b),
    decreases b.len(),
{
    if b.len() > 0 {
        assert((a + b).drop_last() =~= a + b.drop_last());
        lemma_escape_concat(a, b.drop_last());
    }
}

/// Whether a byte is one of those that escaping replaces, other than `&`.
pub open spec fn is_markup_byte(c: u8) -> bool {
    ||| c as char == '<'
    ||| c as char == '>'
    ||| c as char == '"'
    ||| c as char == '\''
    ||| c as char == '/'
    ||| c as char == '`'
}

/// The escape of one byte holds none of `<`, `>`, `"`, `'`, `/` and `` ` ``.
pub proof fn lemma_escape_byte_is_inert(c: u8, i: int)
    requires
        0 <= i < escape_byte(c).len(),
    ensures
        !is_markup_byte(escape_byte(c)[i]),
{
    reveal_strlit("&amp;");
    reveal_strlit("&lt;");
    reveal_strlit("&gt;");
    reveal_strlit("&quot;");
    reveal_strlit("&#x27;");
    reveal_strlit("&#x2F;");
    reveal_strlit("&#96;");
    vstd::string::is_ascii_spec_bytes("&amp;");
    vstd::string::is_ascii_spec_bytes("&lt;");
    vstd::string::is_ascii_spec_bytes("&gt;");
    vstd::string::is_ascii_spec_bytes("&quot;");
    vstd::string::is_ascii_spec_bytes("&#x27;");
    vstd::string::is_ascii_spec_bytes("&#x2F;");
    vstd::string::is_ascii_spec_bytes("&#96;");
}

/// Escaped text holds none of `<`, `>`, `"`, `'`, `/` and `` ` ``.
pub proof fn lemma_escape_is_inert(data: Bytes, i: int)
    requires
        0 <= i < escape(data).len(),
    ensures
        !is_markup_byte(escape(data)[i]),
    decreases data.len(),
{
    if data.len() > 0 {
        let head = escape(data.drop_last());
        if i < head.len() {
            lemma_escape_is_inert(data.drop_last(), i);
        } else {
            lemma_escape_byte_is_inert(data.last(), i - head.len());
        }
    }
}

/// A byte vector is a renderer that escapes for HTML and never fails.
impl Renderer for Vec<u8> {
    open spec fn written(&self) -> Bytes {
        self@
    }

    open spec fn encoding() -> Encoding {
        escaping()
    }

    open spec fn infallible() -> bool {
        true
    }

    fn write(&mut self, data: &[u8]) -> (res: Result<(), std::io::Error>) {
        let ghost before = self@;
        let mut i: usize = 0;
        while i < data.len()
            invariant
                i <= data.len(),
                self@ == before + escape(data@.take(i as int)),
            decreases data.len() - i,
        {
            let c: u8 = data[i];
            proof {
                assert(data@.take(i + 1).drop_last() =~= data@.take(i as int));
            }
            if c as char == '&' {
                self.write_raw_str("&amp;")?;
            } else if c as char == '<' {
                self.write_raw_str("&lt;")?;
            } else if c as char == '>' {
                self.write_raw_str("&gt;")?;
            } else if c as char == '"' {
                self.write_raw_str("&quot;")?;
            } else if c as char == '\'' {
                self.write_raw_str("&#x27;")?;
            } else if c as char == '/' {
                self.write_raw_str("&#x2F;")?;
            } else if c as char == '`' {
                self.write_raw_str("&#96;")?;
            } else {
                self.push(c);
            }
            i += 1;
        }
        proof {
            assert(data@.take(i as int) =~= data@);
        }
        Ok(())
    }

    fn write_raw(&mut self, data: &[u8]) -> (res: Result<(), std::io::Error>) {
        self.extend_from_slice(data);
        assert(self@ =~= old(self)@ + data@);
        Ok(())
    }
}

/// Rendering into memory.
pub trait RenderExt: Render {
    /// The value's markup, escaped for HTML.
    fn render_to_vec(&self) -> (v: Vec<u8>)
        ensures
            v@ == self.markup(escaping()),
    {
        let mut v: Vec<u8> = Vec::new();
        let res = self.render(&mut v);
        v
    }

    /// The value's markup, escaped for HTML, as text.
    fn render_to_string(&self) -> (s: String)
        ensures
            s@ == lossy_text(self.markup(escaping())),
            vstd::utf8::valid_utf8(self.markup(escaping())) ==> s@ == vstd::utf8::decode_utf8(
                self.markup(escaping()),
            ),
    {
        decode_lossy(self.render_to_vec().as_slice())
    }
}

impl<T: Render + ?Sized> RenderExt for T {

}

/// The text that `String::from_utf8_lossy` makes of a byte string.
pub uninterp spec fn lossy_text(bytes: Bytes) -> Text;

/// Decodes bytes as UTF-8 with `String::from_utf8_lossy`.
///
/// The result is a function of the bytes alone. Where the bytes are valid
/// UTF-8 it is the text they encode; elsewhere the standard library puts a
/// replacement character for each malformed sequence, which is not spelled out
/// here.
#[verifier::external_body]
fn decode_lossy(bytes: &[u8]) -> (s: String)
    ensures
        s@ == lossy_text(bytes@),
        vstd::utf8::valid_utf8(bytes@) ==> s@ == vstd::utf8::decode_utf8(bytes@),
{
    String::from_utf8_lossy(bytes).into_owned()
}

/// An attribute as the contracts see it: its name, and its value if it has
/// one.
pub struct AttrView {
    pub key: Text,
    pub value: Option<Text>,
}

/// A tag as the contracts see it: its name and its attributes, in the order
/// in which they were added.
pub struct TagView {
    pub name: Text,
    pub attrs: Seq<AttrView>,
}

impl TagView {
    /// The same tag with one more attribute at the end.
    pub open spec fn with(self, key: Text, value: Option<Text>) -> TagView {
        TagView { name: self.name, attrs: self.attrs.push(AttrView { key, value }) }
    }
}

/// The text of one attribute: a space, its name and, where it has a value,
/// `="`, the value as it is, and `"`.
pub open spec fn attr_text(attr: AttrView) -> Text {
    " "@ + attr.key + match attr.value {
        Some(value) => "=\""@ + value + "\""@,
        None => Seq::empty(),
    }
}

/// The text of a run of attributes.
pub open spec fn attrs_text(attrs: Seq<AttrView>) -> Text
    decreases attrs.len(),
{
    if attrs.len() == 0 {
        Seq::empty()
    } else {
        attrs_text(attrs.drop_last()) + attr_text(attrs.last())
    }
}

/// The text of an opening tag: `<`, the name, the attributes, `>`.
pub open spec fn open_text(tag: TagView) -> Text {
    "<"@ + tag.name + attrs_text(tag.attrs) + ">"@
}

/// The text of a closing tag: `</`, the name, `>`.
pub open spec fn close_text(name: Text) -> Text {
    "</"@ + name + ">"@
}

/// The bytes of one attribute, piece by piece as they are written.
spec fn attr_bytes(attr: AttrView) -> Bytes {
    crate::utf8(" "@) + crate::utf8(attr.key) + match attr.value {
        Some(value) => crate::utf8("=\""@) + crate::utf8(value) + crate::utf8("\""@),
        None => Seq::empty(),
    }
}

/// The bytes of a run of attributes, piece by piece as they are written.
spec fn attrs_bytes(attrs: Seq<AttrView>) -> Bytes
    decreases attrs.len(),
{
    if attrs.len() == 0 {
        Seq::empty()
    } else {
        attrs_bytes(attrs.drop_last()) + attr_bytes(attrs.last())
    }
}

/// The bytes of an opening tag, piece by piece as they are written.
spec fn open_bytes(tag: TagView) -> Bytes {
    crate::utf8("<"@) + crate::utf8(tag.name) + attrs_bytes(tag.attrs) + crate::utf8(">"@)
}

/// The bytes of a closing tag, piece by piece as they are written.
spec fn close_bytes(name: Text) -> Bytes {
    crate::utf8("</"@) + crate::utf8(name) + crate::utf8(">"@)
}

/// The bytes of a run of attributes distribute over concatenation.
proof fn lemma_attrs_bytes_concat(a: Seq<AttrView>, b: Seq<AttrView>)
    ensures
        attrs_bytes(a + b) == attrs_bytes(a) + attrs_bytes(b),
    decreases b.len(),
{
    if b.len() > 0 {
        assert((a + b).drop_last() =~= a + b.drop_last());
        lemma_attrs_bytes_concat(a, b.drop_last());
    }
}

/// The pieces of a run of attributes are the bytes of its text.
proof fn lemma_attrs_bytes(attrs: Seq<AttrView>)
    ensures
        attrs_bytes(attrs) == crate::utf8(attrs_text(attrs)),
    decreases attrs.len(),
{
    if attrs.len() > 0 {
        let attr = attrs.last();
        lemma_attrs_bytes(attrs.drop_last());
        crate::lemma_utf8_concat(attrs_text(attrs.drop_last()), attr_text(attr));
        crate::lemma_utf8_concat(" "@, attr.key);
        if let Some(value) = attr.value {
            crate::lemma_utf8_concat("=\""@, value);
            crate::lemma_utf8_concat("=\""@ + value, "\""@);
            crate::lemma_utf8_concat(" "@ + attr.key, "=\""@ + value + "\""@);
        }
    }
}

/// The pieces of a tag are the bytes of its text.
proof fn lemma_tag_bytes(tag: TagView)
    ensures
        open_bytes(tag) == crate::utf8(open_text(tag)),
        close_bytes(tag.name) == crate::utf8(close_text(tag.name)),
{
    lemma_attrs_bytes(tag.attrs);
    crate::lemma_utf8_concat("<"@, tag.name);
    crate::lemma_utf8_concat("<"@ + tag.name, attrs_text(tag.attrs));
    crate::lemma_utf8_concat("<"@ + tag.name + attrs_text(tag.attrs), ">"@);
    crate::lemma_utf8_concat("</"@, tag.name);
    crate::lemma_utf8_concat("</"@ + tag.name, ">"@);
}

/// What a stored attribute stands for.
spec fn attr_view(attr: (String, Option<String>)) -> AttrView {
    AttrView {
        key: attr.0@,
        value: match attr.1 {
            Some(value) => Some(value@),
            None => None,
        },
    }
}

/// What a stored run of attributes stands for.
spec fn attrs_view(attrs: Seq<(String, Option<String>)>) -> Seq<AttrView> {
    Seq::new(attrs.len(), |i: int| attr_view(attrs[i]))
}

/// A tag without attributes or content, such as [`div`].
pub struct BareTag {
    tag: &'static str,
}

/// A tag with attributes and no content.
pub struct Tag {
    tag: String,
    attrs: Vec<(String, Option<String>)>,
}

/// A tag with its content.
pub struct FinalTag<I> {
    tag: String,
    attrs: Vec<(String, Option<String>)>,
    inn: I,
}

impl View for BareTag {
    type V = TagView;

    closed spec fn view(&self) -> TagView {
        TagView { name: self.tag@, attrs: Seq::empty() }
    }
}

impl View for Tag {
    type V = TagView;

    closed spec fn view(&self) -> TagView {
        TagView { name: self.tag@, attrs: attrs_view(self.attrs@) }
    }
}

impl<I> FinalTag<I> {
    /// The tag around the content.
    pub closed spec fn tag(&self) -> TagView {
        TagView { name: self.tag@, attrs: attrs_view(self.attrs@) }
    }

    /// The content.
    pub closed spec fn content(&self) -> I {
        self.inn
    }
}

/// Writes one attribute.
fn write_attr<R: Renderer>(attr: &(String, Option<String>), r: &mut R) -> (res: Result<
    (),
    std::io::Error,
>)
    ensures
        crate::appended(
            old(r).written(),
            final(r).written(),
            attr_bytes(attr_view(*attr)),
            res is Ok,
        ),
        R::infallible() ==> res is Ok,
{
    let ghost start = r.written();
    let ghost whole = attr_bytes(attr_view(*attr));
    let ghost done = Bytes::empty();
    let res = raw_part(" ", r, Ghost(start), Ghost(done), Ghost(whole));
    if res.is_err() {
        return res;
    }
    let ghost done = done + crate::utf8(" "@);
    let res = raw_part(attr.0.as_str(), r, Ghost(start), Ghost(done), Ghost(whole));
    if res.is_err() {
        return res;
    }
    let ghost done = done + crate::utf8(attr.0@);
    match &attr.1 {
        Some(value) => {
            let res = raw_part("=\"", r, Ghost(start), Ghost(done), Ghost(whole));
            if res.is_err() {
                return res;
            }
            let ghost done = done + crate::utf8("=\""@);
            let res = raw_part(value.as_str(), r, Ghost(start), Ghost(done), Ghost(whole));
            if res.is_err() {
                return res;
            }
            let ghost done = done + crate::utf8(value@);
            let res = raw_part("\"", r, Ghost(start), Ghost(done), Ghost(whole));
            assert(done + crate::utf8("\""@) =~= whole);
            res
        },
        None => res,
    }
}

/// Writes a run of attributes.
fn write_attrs<R: Renderer>(attrs: &Vec<(String, Option<String>)>, r: &mut R) -> (res: Result<
    (),
    std::io::Error,
>)
    ensures
        crate::appended(
            old(r).written(),
            final(r).written(),
            attrs_bytes(attrs_view(attrs@)),
            res is Ok,
        ),
        R::infallible() ==> res is Ok,
{
    let ghost before = r.written();
    let ghost all = attrs_view(attrs@);
    let mut i: usize = 0;
    while i < attrs.len()
        invariant
            i <= attrs.len(),
            before == old(r).written(),
            all == attrs_view(attrs@),
            crate::appended(before, r.written(), attrs_bytes(all.take(i as int)), true),
        decreases attrs.len() - i,
    {
        let ghost mid = r.written();
        let ghost done = attrs_bytes(all.take(i as int));
        let res = write_attr(&attrs[i], r);
        proof {
            assert(all.take(i + 1).drop_last() =~= all.take(i as int));
            crate::lemma_appended_then(
                before,
                mid,
                r.written(),
                done,
                attr_bytes(attr_view(attrs@[i as int])),
                res is Ok,
            );
        }
        if res.is_err() {
            proof {
                assert(all =~= all.take(i + 1) + all.skip(i + 1));
                lemma_attrs_bytes_concat(all.take(i + 1), all.skip(i + 1));
                crate::lemma_appended_short(
                    before,
                    r.written(),
                    attrs_bytes(all.take(i + 1)),
                    attrs_bytes(all.skip(i + 1)),
                );
            }
            return res;
        }
        i += 1;
    }
    proof {
        assert(all.take(i as int) =~= all);
    }
    Ok(())
}

/// Writes an opening tag.
fn write_open<R: Renderer>(tag: &str, attrs: &Vec<(String, Option<String>)>, r: &mut R) -> (res:
    Result<(), std::io::Error>)
    ensures
        crate::appended(
            old(r).written(),
            final(r).written(),
            open_bytes(TagView { name: tag@, attrs: attrs_view(attrs@) }),
            res is Ok,
        ),
        R::infallible() ==> res is Ok,
{
    let ghost start = r.written();
    let ghost view = TagView { name: tag@, attrs: attrs_view(attrs@) };
    let ghost whole = open_bytes(view);
    let ghost done = Bytes::empty();
    let res = raw_part("<", r, Ghost(start), Ghost(done), Ghost(whole));
    if res.is_err() {
        return res;
    }
    let ghost done = done + crate::utf8("<"@);
    let res = raw_part(tag, r, Ghost(start), Ghost(done), Ghost(whole));
    if res.is_err() {
        return res;
    }
    let ghost done = done + crate::utf8(tag@);
    let ghost mid = r.written();
    let res = write_attrs(attrs, r);
    proof {
        crate::lemma_appended_then(
            start,
            mid,
            r.written(),
            done,
            attrs_bytes(view.attrs),
            res is Ok,
        );
    }
    if res.is_err() {
        proof {
            crate::lemma_appended_short(
                start,
                r.written(),
                done + attrs_bytes(view.attrs),
                crate::utf8(">"@),
            );
        }
        return res;
    }
    let ghost done = done + attrs_bytes(view.attrs);
    let res = raw_part(">", r, Ghost(start), Ghost(done), Ghost(whole));
    res
}

/// Writes a closing tag.
fn write_close<R: Renderer>(tag: &str, r: &mut R) -> (res: Result<(), std::io::Error>)
    ensures
        crate::appended(
            old(r).written(),
            final(r).written(),
            close_bytes(tag@),
            res is Ok,
        ),
        R::infallible() ==> res is Ok,
{
    let ghost start = r.written();
    let ghost whole = close_bytes(tag@);
    let ghost done = Bytes::empty();
    let res = raw_part("</", r, Ghost(start), Ghost(done), Ghost(whole));
    if res.is_err() {
        return res;
    }
    let ghost done = done + crate::utf8("</"@);
    let res = raw_part(tag, r, Ghost(start), Ghost(done), Ghost(whole));
    if res.is_err() {
        return res;
    }
    let ghost done = done + crate::utf8(tag@);
    let res = raw_part(">", r, Ghost(start), Ghost(done), Ghost(whole));
    res
}

/// Writes an element: the opening tag, the content, the closing tag.
fn write_element<I: Render, R: Renderer>(
    tag: &str,
    attrs: &Vec<(String, Option<String>)>,
    content: &I,
    r: &mut R,
) -> (res: Result<(), std::io::Error>)
    ensures
        crate::appended(
            old(r).written(),
            final(r).written(),
            open_bytes(TagView { name: tag@, attrs: attrs_view(attrs@) }) + content.markup(
                R::encoding(),
            ) + close_bytes(tag@),
            res is Ok,
        ),
        R::infallible() ==> res is Ok,
{
    let ghost start = r.written();
    let ghost open = open_bytes(TagView { name: tag@, attrs: attrs_view(attrs@) });
    let ghost inner = content.markup(R::encoding());
    let ghost close = close_bytes(tag@);
    let res = write_open(tag, attrs, r);
    if res.is_err() {
        proof {
            crate::lemma_appended_short(start, r.written(), open, inner);
            crate::lemma_appended_short(start, r.written(), open + inner, close);
        }
        return res;
    }
    let ghost mid = r.written();
    let res = content.render(r);
    proof {
        crate::lemma_appended_then(start, mid, r.written(), open, inner, res is Ok);
    }
    if res.is_err() {
        proof {
            crate::lemma_appended_short(start, r.written(), open + inner, close);
        }
        return res;
    }
    let ghost mid = r.written();
    let res = write_close(tag, r);
    proof {
        crate::lemma_appended_then(start, mid, r.written(), open + inner, close, res is Ok);
    }
    res
}

impl Render for Tag {
    open spec fn markup(&self, enc: Encoding) -> Bytes {
        crate::utf8(open_text(self@)) + crate::utf8(close_text(self@.name))
    }

    fn render<R: Renderer>(&self, r: &mut R) -> (res: Result<(), std::io::Error>) {
        let res = write_element(self.tag.as_str(), &self.attrs, &(), r);
        proof {
            lemma_tag_bytes(self@);
        }
        res
    }
}

impl Render for BareTag {
    open spec fn markup(&self, enc: Encoding) -> Bytes {
        crate::utf8(open_text(self@)) + crate::utf8(close_text(self@.name))
    }

    fn render<R: Renderer>(&self, r: &mut R) -> (res: Result<(), std::io::Error>) {
        let attrs: Vec<(String, Option<String>)> = Vec::new();
        let res = write_element(self.tag, &attrs, &(), r);
        proof {
            lemma_tag_bytes(self@);
        }
        res
    }
}

impl<I: Render> Render for FinalTag<I> {
    open spec fn markup(&self, enc: Encoding) -> Bytes {
        crate::utf8(open_text(self.tag())) + self.content().markup(enc) + crate::utf8(
            close_text(self.tag().name),
        )
    }

    fn render<R: Renderer>(&self, r: &mut R) -> (res: Result<(), std::io::Error>) {
        proof {
            lemma_tag_bytes(self.tag());
        }
        write_element(self.tag.as_str(), &self.attrs, &self.inn, r)
    }
}

impl Tag {
    /// Adds an attribute with a value.
    pub fn attr(self, key: &str, val: &str) -> (tag: Tag)
        ensures
            tag@ == self@.with(key@, Some(val@)),
    {
        let Tag { tag, mut attrs } = self;
        attrs.push((key.to_owned(), Some(val.to_owned())));
        assert(attrs_view(attrs@) =~= attrs_view(self.attrs@).push(
            AttrView { key: key@, value: Some(val@) },
        ));
        Tag { tag, attrs }
    }

    /// Adds an attribute without a value.
    pub fn attr1(self, key: &str) -> (tag: Tag)
        ensures
            tag@ == self@.with(key@, None),
    {
        let Tag { tag, mut attrs } = self;
        attrs.push((key.to_owned(), None));
        assert(attrs_view(attrs@) =~= attrs_view(self.attrs@).push(
            AttrView { key: key@, value: None },
        ));
        Tag { tag, attrs }
    }

    /// Puts content inside the tag.
    pub fn call_once<A: Render>(self, content: A) -> (element: FinalTag<A>)
        ensures
            element.tag() == self@,
            element.content() == content,
    {
        FinalTag { tag: self.tag, attrs: self.attrs, inn: content }
    }
}

impl BareTag {
    /// The tag of the given name.
    pub fn new(name: &'static str) -> (tag: BareTag)
        ensures
            tag@ == (TagView { name: name@, attrs: Seq::empty() }),
    {
        BareTag { tag: name }
    }

    /// Adds an attribute with a value.
    pub fn attr(self, key: &str, val: &str) -> (tag: Tag)
        ensures
            tag@ == self@.with(key@, Some(val@)),
    {
        let mut attrs: Vec<(String, Option<String>)> = Vec::new();
        attrs.push((key.to_owned(), Some(val.to_owned())));
        assert(attrs_view(attrs@) =~= Seq::<AttrView>::empty().push(
            AttrView { key: key@, value: Some(val@) },
        ));
        Tag { tag: self.tag.to_owned(), attrs }
    }

    /// Adds an attribute without a value.
    pub fn attr1(self, key: &str) -> (tag: Tag)
        ensures
            tag@ == self@.with(key@, None),
    {
        let mut attrs: Vec<(String, Option<String>)> = Vec::new();
        attrs.push((key.to_owned(), None));
        assert(attrs_view(attrs@) =~= Seq::<AttrView>::empty().push(
            AttrView { key: key@, value: None },
        ));
        Tag { tag: self.tag.to_owned(), attrs }
    }

    /// Puts content inside the tag.
    pub fn call_once<A: Render>(self, content: A) -> (element: FinalTag<A>)
        ensures
            element.tag() == self@,
            element.content() == content,
    {
        let attrs: Vec<(String, Option<String>)> = Vec::new();
        assert(attrs_view(attrs@) =~= Seq::empty());
        FinalTag { tag: self.tag.to_owned(), attrs, inn: content }
    }
}

/// The `nbsp` character reference.
#[derive(Copy, Clone)]
pub struct Nbsp;

/// The `lt` character reference.
#[derive(Copy, Clone)]
pub struct Lt;

/// The `gt` character reference.
#[derive(Copy, Clone)]
pub struct Gt;

#[allow(non_upper_case_globals)]
pub const nbsp: Nbsp = Nbsp;

#[allow(non_upper_case_globals)]
pub const lt: Lt = Lt;

#[allow(non_upper_case_globals)]
pub const gt: Gt = Gt;

impl Render for Nbsp {
    open spec fn markup(&self, enc: Encoding) -> Bytes {
        crate::utf8("&nbsp;"@)
    }

    fn render<R: Renderer>(&self, r: &mut R) -> (res: Result<(), std::io::Error>) {
        r.write_raw_str("&nbsp;")
    }
}

impl Render for Lt {
    open spec fn markup(&self, enc: Encoding) -> Bytes {
        crate::utf8("&lt;"@)
    }

    fn render<R: Renderer>(&self, r: &mut R) -> (res: Result<(), std::io::Error>) {
        r.write_raw_str("&lt;")
    }
}

impl Render for Gt {
    open spec fn markup(&self, enc: Encoding) -> Bytes {
        crate::utf8("&gt;"@)
    }

    fn render<R: Renderer>(&self, r: &mut R) -> (res: Result<(), std::io::Error>) {
        r.write_raw_str("&gt;")
    }
}

/// A document type declaration.
pub struct Doctype {
    name: &'static str,
}

impl View for Doctype {
    type V = Text;

    closed spec fn view(&self) -> Text {
        self.name@
    }
}

impl Render for Doctype {
    open spec fn markup(&self, enc: Encoding) -> Bytes {
        crate::utf8("<!DOCTYPE "@) + crate::utf8(self@) + crate::utf8(">"@)
    }

    fn render<R: Renderer>(&self, r: &mut R) -> (res: Result<(), std::io::Error>) {
        let ghost start = r.written();
        let ghost whole = self.markup(R::encoding());
        let ghost done = Bytes::empty();
        let res = raw_part("<!DOCTYPE ", r, Ghost(start), Ghost(done), Ghost(whole));
        if res.is_err() {
            return res;
        }
        let ghost done = done + crate::utf8("<!DOCTYPE "@);
        let res = raw_part(self.name, r, Ghost(start), Ghost(done), Ghost(whole));
        if res.is_err() {
            return res;
        }
        let ghost done = done + crate::utf8(self@);
        let res = raw_part(">", r, Ghost(start), Ghost(done), Ghost(whole));
        res
    }
}

/// The declaration `<!DOCTYPE t>`.
pub fn doctype(t: &'static str) -> (d: Doctype)
    ensures
        d@ == t@,
{
    Doctype { name: t }
}

/// A value whose text is markup already: nothing in it is escaped.
pub struct Raw<T>(T);

impl<T> Raw<T> {
    /// The value inside.
    pub closed spec fn inner(&self) -> T {
        self.0
    }
}

impl<T: Render> Render for Raw<T> {
    open spec fn markup(&self, enc: Encoding) -> Bytes {
        self.inner().markup(crate::plain())
    }

    /// Renders the value inside without escaping into a buffer of its own,
    /// and hands the buffer on as one raw write.
    fn render<R: Renderer>(&self, r: &mut R) -> (res: Result<(), std::io::Error>) {
        let mut buffer: crate::RawRenderer<Vec<u8>> = crate::RawRenderer(Vec::new());
        let inner = self.0.render(&mut buffer);
        r.write_raw(buffer.0.as_slice())
    }
}

/// Marks `x` as markup: it is rendered without escaping.
pub fn raw<T: Render>(x: T) -> (r: Raw<T>)
    ensures
        r.inner() == x,
{
    Raw(x)
}

} // verus!
