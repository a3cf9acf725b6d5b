//! The common tags by name.

use crate::html::{BareTag, TagView};
use vstd::prelude::*;

verus! {

/// The tag `html`.
pub fn html() -> (tag: BareTag)
    ensures
        tag@ == (TagView { name: "html"@, attrs: Seq::empty() }),
{
    BareTag::new("html")
}

/// The tag `head`.
pub fn head() -> (tag: BareTag)
    ensures
        tag@ == (TagView { name: "head"@, attrs: Seq::empty() }),
{
    BareTag::new("head")
}

/// The tag `meta`.
pub fn meta() -> (tag: BareTag)
    ensures
        tag@ == (TagView { name: "meta"@, attrs: Seq::empty() }),
{
    BareTag::new("meta")
}

/// The tag `title`.
pub fn title() -> (tag: BareTag)
    ensures
        tag@ == (TagView { name: "title"@, attrs: Seq::empty() }),
{
    BareTag::new("title")
}

/// The tag `body`.
pub fn body() -> (tag: BareTag)
    ensures
        tag@ == (TagView { name: "body"@, attrs: Seq::empty() }),
{
    BareTag::new("body")
}

/// The tag `div`.
pub fn div() -> (tag: BareTag)
    ensures
        tag@ == (TagView { name: "div"@, attrs: Seq::empty() }),
{
    BareTag::new("div")
}

/// The tag `section`.
pub fn section() -> (tag: BareTag)
    ensures
        tag@ == (TagView { name: "section"@, attrs: Seq::empty() }),
{
    BareTag::new("section")
}

/// The tag `h1`.
pub fn h1() -> (tag: BareTag)
    ensures
        tag@ == (TagView { name: "h1"@, attrs: Seq::empty() }),
{
    BareTag::new("h1")
}

/// The tag `h2`.
pub fn h2() -> (tag: BareTag)
    ensures
        tag@ == (TagView { name: "h2"@, attrs: Seq::empty() }),
{
    BareTag::new("h2")
}

/// The tag `h3`.
pub fn h3() -> (tag: BareTag)
    ensures
        tag@ == (TagView { name: "h3"@, attrs: Seq::empty() }),
{
    BareTag::new("h3")
}

/// The tag `h4`.
pub fn h4() -> (tag: BareTag)
    ensures
        tag@ == (TagView { name: "h4"@, attrs: Seq::empty() }),
{
    BareTag::new("h4")
}

/// The tag `h5`.
pub fn h5() -> (tag: BareTag)
    ensures
        tag@ == (TagView { name: "h5"@, attrs: Seq::empty() }),
{
    BareTag::new("h5")
}

/// The tag `li`.
pub fn li() -> (tag: BareTag)
    ensures
        tag@ == (TagView { name: "li"@, attrs: Seq::empty() }),
{
    BareTag::new("li")
}

/// The tag `ul`.
pub fn ul() -> (tag: BareTag)
    ensures
        tag@ == (TagView { name: "ul"@, attrs: Seq::empty() }),
{
    BareTag::new("ul")
}

/// The tag `ol`.
pub fn ol() -> (tag: BareTag)
    ensures
        tag@ == (TagView { name: "ol"@, attrs: Seq::empty() }),
{
    BareTag::new("ol")
}

/// The tag `p`.
pub fn p() -> (tag: BareTag)
    ensures
        tag@ == (TagView { name: "p"@, attrs: Seq::empty() }),
{
    BareTag::new("p")
}

/// The tag `span`.
pub fn span() -> (tag: BareTag)
    ensures
        tag@ == (TagView { name: "span"@, attrs: Seq::empty() }),
{
    BareTag::new("span")
}

/// The tag `b`.
pub fn b() -> (tag: BareTag)
    ensures
        tag@ == (TagView { name: "b"@, attrs: Seq::empty() }),
{
    BareTag::new("b")
}

/// The tag `i`.
pub fn i() -> (tag: BareTag)
    ensures
        tag@ == (TagView { name: "i"@, attrs: Seq::empty() }),
{
    BareTag::new("i")
}

/// The tag `u`.
pub fn u() -> (tag: BareTag)
    ensures
        tag@ == (TagView { name: "u"@, attrs: Seq::empty() }),
{
    BareTag::new("u")
}

/// The tag `tt`.
pub fn tt() -> (tag: BareTag)
    ensures
        tag@ == (TagView { name: "tt"@, attrs: Seq::empty() }),
{
    BareTag::new("tt")
}

/// The tag `string`.
pub fn string() -> (tag: BareTag)
    ensures
        tag@ == (TagView { name: "string"@, attrs: Seq::empty() }),
{
    BareTag::new("string")
}

/// The tag `pre`.
pub fn pre() -> (tag: BareTag)
    ensures
        tag@ == (TagView { name: "pre"@, attrs: Seq::empty() }),
{
    BareTag::new("pre")
}

/// The tag `link`.
pub fn link() -> (tag: BareTag)
    ensures
        tag@ == (TagView { name: "link"@, attrs: Seq::empty() }),
{
    BareTag::new("link")
}

/// The tag `script`.
pub fn script() -> (tag: BareTag)
    ensures
        tag@ == (TagView { name: "script"@, attrs: Seq::empty() }),
{
    BareTag::new("script")
}

/// The tag `main`.
pub fn main() -> (tag: BareTag)
    ensures
        tag@ == (TagView { name: "main"@, attrs: Seq::empty() }),
{
    BareTag::new("main")
}

/// The tag `nav`.
pub fn nav() -> (tag: BareTag)
    ensures
        tag@ == (TagView { name: "nav"@, attrs: Seq::empty() }),
{
    BareTag::new("nav")
}

/// The tag `a`.
pub fn a() -> (tag: BareTag)
    ensures
        tag@ == (TagView { name: "a"@, attrs: Seq::empty() }),
{
    BareTag::new("a")
}

/// The tag `form`.
pub fn form() -> (tag: BareTag)
    ensures
        tag@ == (TagView { name: "form"@, attrs: Seq::empty() }),
{
    BareTag::new("form")
}

/// The tag `button`.
pub fn button() -> (tag: BareTag)
    ensures
        tag@ == (TagView { name: "button"@, attrs: Seq::empty() }),
{
    BareTag::new("button")
}

/// The tag `input`.
pub fn input() -> (tag: BareTag)
    ensures
        tag@ == (TagView { name: "input"@, attrs: Seq::empty() }),
{
    BareTag::new("input")
}

/// The tag `img`.
pub fn img() -> (tag: BareTag)
    ensures
        tag@ == (TagView { name: "img"@, attrs: Seq::empty() }),
{
    BareTag::new("img")
}

/// The tag `blockquote`.
pub fn blockquote() -> (tag: BareTag)
    ensures
        tag@ == (TagView { name: "blockquote"@, attrs: Seq::empty() }),
{
    BareTag::new("blockquote")
}

/// The tag `footer`.
pub fn footer() -> (tag: BareTag)
    ensures
        tag@ == (TagView { name: "footer"@, attrs: Seq::empty() }),
{
    BareTag::new("footer")
}

/// The tag `wrapper`.
pub fn wrapper() -> (tag: BareTag)
    ensures
        tag@ == (TagView { name: "wrapper"@, attrs: Seq::empty() }),
{
    BareTag::new("wrapper")
}

/// The tag `label`.
pub fn label() -> (tag: BareTag)
    ensures
        tag@ == (TagView { name: "label"@, attrs: Seq::empty() }),
{
    BareTag::new("label")
}

/// The tag `table`.
pub fn table() -> (tag: BareTag)
    ensures
        tag@ == (TagView { name: "table"@, attrs: Seq::empty() }),
{
    BareTag::new("table")
}

/// The tag `thead`.
pub fn thead() -> (tag: BareTag)
    ensures
        tag@ == (TagView { name: "thead"@, attrs: Seq::empty() }),
{
    BareTag::new("thead")
}

/// The tag `th`.
pub fn th() -> (tag: BareTag)
    ensures
        tag@ == (TagView { name: "th"@, attrs: Seq::empty() }),
{
    BareTag::new("th")
}

/// The tag `tr`.
pub fn tr() -> (tag: BareTag)
    ensures
        tag@ == (TagView { name: "tr"@, attrs: Seq::empty() }),
{
    BareTag::new("tr")
}

/// The tag `td`.
pub fn td() -> (tag: BareTag)
    ensures
        tag@ == (TagView { name: "td"@, attrs: Seq::empty() }),
{
    BareTag::new("td")
}

/// The tag `tbody`.
pub fn tbody() -> (tag: BareTag)
    ensures
        tag@ == (TagView { name: "tbody"@, attrs: Seq::empty() }),
{
    BareTag::new("tbody")
}

/// The tag `textarea`.
pub fn textarea() -> (tag: BareTag)
    ensures
        tag@ == (TagView { name: "textarea"@, attrs: Seq::empty() }),
{
    BareTag::new("textarea")
}

} // verus!
