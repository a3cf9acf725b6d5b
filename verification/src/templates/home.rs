//! The home page.

use crate::html::{h1, li, p, ul, FinalTag};
use crate::templates::base;
use crate::{Bytes, Encoding, Render, Text};
use vstd::prelude::*;
use vstd::string::StringExecFns;

verus! {

/// What the home page is filled with.
#[derive(Clone, Debug, PartialEq, Eq)]
pub struct Data {
    pub page: base::Data,
    pub name: String,
}

/// The markup of the home page's content for a visitor called `name`. The
/// name goes out as it is.
pub open spec fn content_markup(name: Text, enc: Encoding) -> Bytes {
    crate::utf8("<h1 class=\"main\">"@) + enc(crate::utf8("Welcome page"@)) + crate::utf8(
        "</h1><p>Hi, "@,
    ) + crate::utf8(name) + crate::utf8("!</p><ul><li>0</li><li>1</li></ul>"@)
}

/// The home page: a heading, a greeting and a short list, inside the
/// skeleton.
pub fn page(data: &Data) -> (page: impl Render)
    ensures
        forall|enc: Encoding| #[trigger]
            page.markup(enc) == base::base_markup(
                data.page.title@,
                content_markup(data.name@, enc),
            ),
{
    let heading = h1().class("main").call_once("Welcome page");
    let mut greeting = "Hi, ".to_owned();
    greeting.append(data.name.as_str());
    greeting.append("!");
    let paragraph = p().call_once(greeting);
    let mut items: Vec<FinalTag<i32>> = Vec::new();
    let mut n: i32 = 0;
    while n < 2
        invariant
            0 <= n <= 2,
            items@.len() == n,
            forall|i: int|
                0 <= i < n ==> (#[trigger] items@[i]).content() == i && items@[i].tag() == (
                crate::html::TagView { name: "li"@, attrs: Seq::empty() }),
        decreases 2 - n,
    {
        items.push(li().call_once(n));
        n += 1;
    }
    let list = ul().call_once(items);
    let content = (heading, paragraph, list);
    let page = base::base(&data.page, content);
    proof {
        lemma_heading_text();
        lemma_greeting_texts(data.name@);
        lemma_list_texts();
        let none = Seq::<crate::html::AttrView>::empty();
        let item = crate::html::TagView { name: "li"@, attrs: none };
        assert forall|enc: Encoding| #[trigger]
            page.markup(enc) == base::base_markup(
                data.page.title@,
                content_markup(data.name@, enc),
            ) by {
            let h1 = crate::utf8(crate::html::open_text(heading.tag()));
            let h = enc(crate::utf8("Welcome page"@));
            let h2 = crate::utf8(crate::html::close_text("h1"@));
            let q1 = crate::utf8(crate::html::open_text(paragraph.tag()));
            let g1 = crate::utf8("Hi, "@);
            let g = crate::utf8(data.name@);
            let g2 = crate::utf8("!"@);
            let q2 = crate::utf8(crate::html::close_text("p"@));
            let u1 = crate::utf8(crate::html::open_text(list.tag()));
            let i1 = crate::utf8(crate::html::open_text(item));
            let i2 = crate::utf8(crate::html::close_text("li"@));
            let n0 = crate::number::signed_decimal(0);
            let n1 = crate::number::signed_decimal(1);
            let u2 = crate::utf8(crate::html::close_text("ul"@));
            let none_yet = Bytes::empty();
            assert(crate::markup_all(items@.drop_last().drop_last(), enc) == none_yet);
            assert(crate::markup_all(items@.drop_last(), enc) == none_yet + (i1 + n0 + i2));
            lemma_content_shape(h1, h, h2, q1, g1, g, g2, q2, u1, i1, n0, n1, i2, u2);
        }
    }
    page
}

/// The opening tag of the heading, as one text.
proof fn lemma_heading_text()
    ensures
        crate::html::open_text(
            (crate::html::TagView { name: "h1"@, attrs: Seq::empty() }).with(
                "class"@,
                Some("main"@),
            ),
        ) == "<h1 class=\"main\">"@,
{
    reveal_strlit("<");
    reveal_strlit(">");
    reveal_strlit(" ");
    reveal_strlit("=\"");
    reveal_strlit("\"");
    reveal_strlit("h1");
    reveal_strlit("class");
    reveal_strlit("main");
    reveal_strlit("<h1 class=\"main\">");
    let attrs = Seq::<crate::html::AttrView>::empty().push(
        crate::html::AttrView { key: "class"@, value: Some("main"@) },
    );
    assert(crate::html::attrs_text(attrs.drop_last()) =~= Seq::empty());
}

/// The fixed texts around the visitor's name, each as the run of pieces it is
/// made of.
proof fn lemma_greeting_texts(name: Text)
    ensures
        ({
            let none = Seq::<crate::html::AttrView>::empty();
            let paragraph = crate::html::TagView { name: "p"@, attrs: none };
            &&& crate::utf8("</h1><p>Hi, "@) == crate::utf8(crate::html::close_text("h1"@))
                + crate::utf8(crate::html::open_text(paragraph)) + crate::utf8("Hi, "@)
            &&& crate::utf8("Hi, "@ + name + "!"@) == crate::utf8("Hi, "@) + crate::utf8(name)
                + crate::utf8("!"@)
        }),
{
    reveal_strlit("<");
    reveal_strlit("</");
    reveal_strlit(">");
    reveal_strlit("h1");
    reveal_strlit("p");
    reveal_strlit("Hi, ");
    reveal_strlit("</h1><p>Hi, ");
    let none = Seq::<crate::html::AttrView>::empty();
    let a = crate::html::close_text("h1"@);
    let b = crate::html::open_text(crate::html::TagView { name: "p"@, attrs: none });
    crate::lemma_utf8_concat(a, b);
    crate::lemma_utf8_concat(a + b, "Hi, "@);
    assert("</h1><p>Hi, "@ =~= a + b + "Hi, "@);
    crate::lemma_utf8_concat("Hi, "@, name);
    crate::lemma_utf8_concat("Hi, "@ + name, "!"@);
}

/// The fixed text after the visitor's name, as the run of pieces it is made
/// of.
proof fn lemma_list_texts()
    ensures
        ({
            let none = Seq::<crate::html::AttrView>::empty();
            let list = crate::html::TagView { name: "ul"@, attrs: none };
            let item = crate::html::TagView { name: "li"@, attrs: none };
            let open = crate::utf8(crate::html::open_text(item));
            let close = crate::utf8(crate::html::close_text("li"@));
            crate::utf8("!</p><ul><li>0</li><li>1</li></ul>"@) == crate::utf8("!"@) + crate::utf8(
                crate::html::close_text("p"@),
            ) + crate::utf8(crate::html::open_text(list)) + (open
                + crate::number::signed_decimal(0) + close) + (open
                + crate::number::signed_decimal(1) + close) + crate::utf8(
                crate::html::close_text("ul"@),
            )
        }),
{
    reveal_strlit("<");
    reveal_strlit("</");
    reveal_strlit(">");
    reveal_strlit("!");
    reveal_strlit("p");
    reveal_strlit("ul");
    reveal_strlit("li");
    reveal_strlit("0");
    reveal_strlit("1");
    reveal_strlit("!</p><ul><li>0</li><li>1</li></ul>");
    let none = Seq::<crate::html::AttrView>::empty();
    let a = "!"@;
    let b = crate::html::close_text("p"@);
    let c = crate::html::open_text(crate::html::TagView { name: "ul"@, attrs: none });
    let d = crate::html::open_text(crate::html::TagView { name: "li"@, attrs: none });
    let e = crate::html::close_text("li"@);
    let f = crate::html::close_text("ul"@);
    vstd::string::is_ascii_spec_bytes("0");
    vstd::string::is_ascii_spec_bytes("1");
    crate::lemma_utf8_concat(a, b);
    crate::lemma_utf8_concat(a + b, c);
    crate::lemma_utf8_concat(d, "0"@);
    crate::lemma_utf8_concat(d + "0"@, e);
    crate::lemma_utf8_concat(d, "1"@);
    crate::lemma_utf8_concat(d + "1"@, e);
    crate::lemma_utf8_concat(a + b + c, d + "0"@ + e);
    crate::lemma_utf8_concat(a + b + c + (d + "0"@ + e), d + "1"@ + e);
    crate::lemma_utf8_concat(a + b + c + (d + "0"@ + e) + (d + "1"@ + e), f);
    assert("!</p><ul><li>0</li><li>1</li></ul>"@ =~= a + b + c + (d + "0"@ + e) + (d + "1"@ + e)
        + f);
}

/// The nesting of the content's elements, read from left to right.
proof fn lemma_content_shape(
    h1: Bytes,
    h: Bytes,
    h2: Bytes,
    q1: Bytes,
    g1: Bytes,
    g: Bytes,
    g2: Bytes,
    q2: Bytes,
    u1: Bytes,
    i1: Bytes,
    n0: Bytes,
    n1: Bytes,
    i2: Bytes,
    u2: Bytes,
)
    ensures
        (h1 + h + h2) + (q1 + (g1 + g + g2) + q2) + (u1 + (Bytes::empty() + (i1 + n0 + i2) + (
        i1 + n1 + i2)) + u2) == h1 + h + (h2 + q1 + g1) + g + (g2 + q2 + u1 + (i1 + n0 + i2) + (i1
            + n1 + i2) + u2),
{
}

} // verus!
