use stpl::html::{
    a, body, div, doctype, gt, h1, html, input, li, lt, meta, nbsp, p, raw, script, span, ul,
    BareTag, RenderExt,
};

#[test]
fn bare_tag_renders_open_and_close() {
    assert_eq!(div().render_to_vec(), b"<div></div>".to_vec());
}

#[test]
fn custom_tag_renders_open_and_close() {
    assert_eq!(BareTag::new("article").render_to_vec(), b"<article></article>".to_vec());
}

#[test]
fn tag_with_attribute_renders_it() {
    assert_eq!(
        div().attr("id", "main").render_to_vec(),
        b"<div id=\"main\"></div>".to_vec()
    );
}

#[test]
fn tag_with_valueless_attribute_renders_its_name() {
    assert_eq!(input().attr1("checked").render_to_vec(), b"<input checked></input>".to_vec());
}

#[test]
fn attributes_keep_their_order() {
    assert_eq!(
        meta().attr("name", "viewport").attr1("x").attr("content", "width=device-width")
            .render_to_vec(),
        b"<meta name=\"viewport\" x content=\"width=device-width\"></meta>".to_vec()
    );
}

#[test]
fn attribute_values_go_out_as_they_are() {
    assert_eq!(
        a().attr("href", "/x?a=1&b=2").render_to_vec(),
        b"<a href=\"/x?a=1&b=2\"></a>".to_vec()
    );
}

#[test]
fn element_renders_its_content_between_the_tags() {
    assert_eq!(p().call_once("1 < 2").render_to_vec(), b"<p>1 &lt; 2</p>".to_vec());
}

#[test]
fn element_with_attributes_renders_both() {
    assert_eq!(
        h1().class("main").call_once("Welcome!").render_to_vec(),
        b"<h1 class=\"main\">Welcome!</h1>".to_vec()
    );
}

#[test]
fn elements_nest() {
    let list = ul().call_once(vec![li().call_once(0i32), li().call_once(1i32)]);
    assert_eq!(
        html().call_once(body().call_once((span().id("s").call_once("x"), list))).render_to_vec(),
        b"<html><body><span id=\"s\">x</span><ul><li>0</li><li>1</li></ul></body></html>".to_vec()
    );
}

#[test]
fn named_attributes_use_their_html_names() {
    assert_eq!(
        input().type_("text").name("q").placeholder("Search").disabled().render_to_vec(),
        b"<input type=\"text\" name=\"q\" placeholder=\"Search\" disabled></input>".to_vec()
    );
    assert_eq!(
        a().data_toggle("collapse").data_target("#nav").aria_expanded("false").render_to_vec(),
        b"<a data-toggle=\"collapse\" data-target=\"#nav\" aria-expanded=\"false\"></a>".to_vec()
    );
    assert_eq!(
        div().for_("x").aria_labelledby("y").aria_haspopup("true").aria_controls("z")
            .render_to_vec(),
        b"<div for=\"x\" aria-labelledby=\"y\" aria-haspopup=\"true\" aria-controls=\"z\"></div>"
            .to_vec()
    );
    assert_eq!(
        script().src("a.js").integrity("sha").crossorigin("anonymous").render_to_vec(),
        b"<script src=\"a.js\" integrity=\"sha\" crossorigin=\"anonymous\"></script>".to_vec()
    );
    assert_eq!(
        div().checked().enabled().data_placement("top").aria_label("l").aria_current("page")
            .render_to_vec(),
        b"<div checked enabled data-placement=\"top\" aria-label=\"l\" aria-current=\"page\"></div>"
            .to_vec()
    );
}

#[test]
fn every_named_attribute_renders_under_its_name() {
    let tag = div()
        .class("1").id("2").charset("3").content("4").name("5").href("6").rel("7").src("8")
        .integrity("9").crossorigin("10").role("11").method("12").action("13").placeholder("14")
        .value("15").rows("16").alt("17").style("18").onclick("19").placement("20").toggle("21")
        .scope("22").title("23");
    let expected = "<div class=\"1\" id=\"2\" charset=\"3\" content=\"4\" name=\"5\" href=\"6\" \
                    rel=\"7\" src=\"8\" integrity=\"9\" crossorigin=\"10\" role=\"11\" \
                    method=\"12\" action=\"13\" placeholder=\"14\" value=\"15\" rows=\"16\" \
                    alt=\"17\" style=\"18\" onclick=\"19\" placement=\"20\" toggle=\"21\" \
                    scope=\"22\" title=\"23\"></div>";
    assert_eq!(tag.render_to_string(), expected.to_string());
}

#[test]
fn doctype_renders_a_declaration() {
    assert_eq!(doctype("html").render_to_vec(), b"<!DOCTYPE html>".to_vec());
}

#[test]
fn raw_content_is_not_escaped() {
    assert_eq!(raw("<b>&</b>").render_to_vec(), b"<b>&</b>".to_vec());
    assert_eq!(
        script().call_once(raw("if (a < b && c) { x = '/'; }")).render_to_vec(),
        b"<script>if (a < b && c) { x = '/'; }</script>".to_vec()
    );
}

#[test]
fn raw_reaches_into_nested_values() {
    assert_eq!(
        raw(("<", vec!["&", ">"], p().call_once("'"))).render_to_vec(),
        b"<&><p>'</p>".to_vec()
    );
}

#[test]
fn escaping_resumes_after_raw_content() {
    assert_eq!((raw("<"), "<").render_to_vec(), b"<&lt;".to_vec());
}

#[test]
fn character_references_render_verbatim() {
    assert_eq!((nbsp, lt, gt).render_to_vec(), b"&nbsp;&lt;&gt;".to_vec());
}
