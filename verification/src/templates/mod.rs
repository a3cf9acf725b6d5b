//! Example templates: a page skeleton and a home page built on it.

use crate::dynamic::Template;
use crate::{Bytes, Encoding, Render, Renderer, Text};
use vstd::prelude::*;

pub mod base;
pub mod home;

verus! {

/// The home page as a template that can be called by key.
pub struct HomeTemplate;

impl Template for HomeTemplate {
    type Argument = home::Data;

    open spec fn key_text(&self) -> Text {
        "home"@
    }

    open spec fn page(&self, argument: &home::Data, enc: Encoding) -> Bytes {
        base::base_markup(argument.page.title@, home::content_markup(argument.name@, enc))
    }

    fn key(&self) -> (key: &str) {
        "home"
    }

    fn render<R: Renderer>(&self, argument: &home::Data, r: &mut R) -> (res: Result<
        (),
        std::io::Error,
    >) {
        home::page(argument).render(r)
    }
}

/// The home page, registered under the key `home`.
pub fn home_tpl() -> (template: HomeTemplate)
    ensures
        template.key_text() == "home"@,
{
    HomeTemplate
}

} // verus!
