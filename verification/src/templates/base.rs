//! The skeleton that every page shares.

use crate::html::{body, head, html, title};
use crate::{Bytes, Encoding, Render, Text};
use vstd::prelude::*;

verus! {

/// What the skeleton is filled with.
#[derive(Clone, Debug, PartialEq, Eq)]
pub struct Data {
    pub title: String,
}

/// The markup of a page with the given title around `content`. The title
/// goes out as it is.
pub open spec fn base_markup(title_text: Text, content: Bytes) -> Bytes {
    crate::utf8("<html><head><title>"@) + crate::utf8(title_text) + crate::utf8(
        "</title></head><body>"@,
    ) + content + crate::utf8("</body></html>"@)
}

/// A page with the title of `data` around `content`.
pub fn base<C: Render>(data: &Data, content: C) -> (page: impl Render)
    ensures
        forall|enc: Encoding| #[trigger]
            page.markup(enc) == base_markup(data.title@, content.markup(enc)),
{
    let inner_title = title().call_once(data.title.clone());
    let inner_head = head().call_once(inner_title);
    let inner_body = body().call_once(content);
    let page = html().call_once((inner_head, inner_body));
    proof {
        lemma_skeleton_texts();
        assert forall|enc: Encoding| #[trigger]
            page.markup(enc) == base_markup(data.title@, content.markup(enc)) by {
            let t1 = crate::utf8(crate::html::open_text(inner_title.tag()));
            let t2 = crate::utf8(crate::html::close_text("title"@));
            let h1 = crate::utf8(crate::html::open_text(inner_head.tag()));
            let h2 = crate::utf8(crate::html::close_text("head"@));
            let b1 = crate::utf8(crate::html::open_text(inner_body.tag()));
            let b2 = crate::utf8(crate::html::close_text("body"@));
            let d1 = crate::utf8(crate::html::open_text(page.tag()));
            let d2 = crate::utf8(crate::html::close_text("html"@));
            let t = crate::utf8(data.title@);
            let c = content.markup(enc);
            lemma_skeleton_shape(d1, h1, t1, t, t2, h2, b1, c, b2, d2);
        }
    }
    page
}

/// The nesting of the skeleton's elements, read from left to right.
proof fn lemma_skeleton_shape(
    d1: Bytes,
    h1: Bytes,
    t1: Bytes,
    t: Bytes,
    t2: Bytes,
    h2: Bytes,
    b1: Bytes,
    c: Bytes,
    b2: Bytes,
    d2: Bytes,
)
    ensures
        d1 + ((h1 + (t1 + t + t2) + h2) + (b1 + c + b2)) + d2 == (d1 + h1 + t1) + t + (t2 + h2
            + b1) + c + (b2 + d2),
{
}

/// The fixed texts of the skeleton, each as the run of tags it is made of.
proof fn lemma_skeleton_texts()
    ensures
        ({
            let none = Seq::<crate::html::AttrView>::empty();
            let html = crate::html::TagView { name: "html"@, attrs: none };
            let head = crate::html::TagView { name: "head"@, attrs: none };
            let title = crate::html::TagView { name: "title"@, attrs: none };
            let body = crate::html::TagView { name: "body"@, attrs: none };
            &&& crate::utf8("<html><head><title>"@) == crate::utf8(crate::html::open_text(html))
                + crate::utf8(crate::html::open_text(head)) + crate::utf8(
                crate::html::open_text(title),
            )
            &&& crate::utf8("</title></head><body>"@) == crate::utf8(
                crate::html::close_text("title"@),
            ) + crate::utf8(crate::html::close_text("head"@)) + crate::utf8(
                crate::html::open_text(body),
            )
            &&& crate::utf8("</body></html>"@) == crate::utf8(crate::html::close_text("body"@))
                + crate::utf8(crate::html::close_text("html"@))
        }),
{
    reveal_strlit("<");
    reveal_strlit("</");
    reveal_strlit(">");
    reveal_strlit("html");
    reveal_strlit("head");
    reveal_strlit("title");
    reveal_strlit("body");
    reveal_strlit("<html><head><title>");
    reveal_strlit("</title></head><body>");
    reveal_strlit("</body></html>");
    let none = Seq::<crate::html::AttrView>::empty();
    let a = crate::html::open_text(crate::html::TagView { name: "html"@, attrs: none });
    let b = crate::html::open_text(crate::html::TagView { name: "head"@, attrs: none });
    let c = crate::html::open_text(crate::html::TagView { name: "title"@, attrs: none });
    crate::lemma_utf8_concat(a, b);
    crate::lemma_utf8_concat(a + b, c);
    assert("<html><head><title>"@ =~= a + b + c);
    let d = crate::html::close_text("title"@);
    let e = crate::html::close_text("head"@);
    let f = crate::html::open_text(crate::html::TagView { name: "body"@, attrs: none });
    crate::lemma_utf8_concat(d, e);
    crate::lemma_utf8_concat(d + e, f);
    assert("</title></head><body>"@ =~= d + e + f);
    let g = crate::html::close_text("body"@);
    let h = crate::html::close_text("html"@);
    crate::lemma_utf8_concat(g, h);
    assert("</body></html>"@ =~= g + h);
}

} // verus!
