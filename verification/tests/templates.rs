use stpl::dynamic::Template;
use stpl::html::{p, RenderExt};
use stpl::templates::base::base;
use stpl::templates::home::page;
use stpl::templates::{base, home, home_tpl};

fn william() -> home::Data {
    home::Data { page: base::Data { title: "Hello!".into() }, name: "William".into() }
}

#[test]
fn base_wraps_content_in_the_skeleton() {
    let data = base::Data { title: "T".into() };
    assert_eq!(
        base(&data, p().call_once("x < y")).render_to_string(),
        "<html><head><title>T</title></head><body><p>x &lt; y</p></body></html>".to_string()
    );
}

#[test]
fn base_leaves_the_title_as_it_is() {
    let data = base::Data { title: "<A & B>".into() };
    assert_eq!(
        base(&data, ()).render_to_string(),
        "<html><head><title><A & B></title></head><body></body></html>".to_string()
    );
}

#[test]
fn home_page_renders_heading_greeting_and_list() {
    assert_eq!(
        page(&william()).render_to_string(),
        "<html><head><title>Hello!</title></head><body><h1 class=\"main\">Welcome page</h1>\
         <p>Hi, William!</p><ul><li>0</li><li>1</li></ul></body></html>"
            .to_string()
    );
}

#[test]
fn home_page_leaves_the_name_as_it_is() {
    let data = home::Data { page: base::Data { title: String::new() }, name: "<b>".into() };
    assert_eq!(
        page(&data).render_to_string(),
        "<html><head><title></title></head><body><h1 class=\"main\">Welcome page</h1>\
         <p>Hi, <b>!</p><ul><li>0</li><li>1</li></ul></body></html>"
            .to_string()
    );
}

#[test]
fn home_template_is_registered_as_home() {
    assert_eq!(home_tpl().key(), "home");
}

#[test]
fn home_template_renders_the_home_page() {
    let mut out: Vec<u8> = Vec::new();
    home_tpl().render(&william(), &mut out).unwrap();
    assert_eq!(out, page(&william()).render_to_vec());
}
