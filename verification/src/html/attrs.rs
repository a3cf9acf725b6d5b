//! The common attributes by name.

use crate::html::{BareTag, Tag};
use vstd::prelude::*;

verus! {

/// One method for each common attribute.
impl Tag {
    /// Adds the attribute `class` with a value.
    pub fn class(self, val: &str) -> (tag: Tag)
        ensures
            tag@ == self@.with("class"@, Some(val@)),
    {
        self.attr("class", val)
    }

    /// Adds the attribute `id` with a value.
    pub fn id(self, val: &str) -> (tag: Tag)
        ensures
            tag@ == self@.with("id"@, Some(val@)),
    {
        self.attr("id", val)
    }

    /// Adds the attribute `charset` with a value.
    pub fn charset(self, val: &str) -> (tag: Tag)
        ensures
            tag@ == self@.with("charset"@, Some(val@)),
    {
        self.attr("charset", val)
    }

    /// Adds the attribute `content` with a value.
    pub fn content(self, val: &str) -> (tag: Tag)
        ensures
            tag@ == self@.with("content"@, Some(val@)),
    {
        self.attr("content", val)
    }

    /// Adds the attribute `name` with a value.
    pub fn name(self, val: &str) -> (tag: Tag)
        ensures
            tag@ == self@.with("name"@, Some(val@)),
    {
        self.attr("name", val)
    }

    /// Adds the attribute `href` with a value.
    pub fn href(self, val: &str) -> (tag: Tag)
        ensures
            tag@ == self@.with("href"@, Some(val@)),
    {
        self.attr("href", val)
    }

    /// Adds the attribute `rel` with a value.
    pub fn rel(self, val: &str) -> (tag: Tag)
        ensures
            tag@ == self@.with("rel"@, Some(val@)),
    {
        self.attr("rel", val)
    }

    /// Adds the attribute `src` with a value.
    pub fn src(self, val: &str) -> (tag: Tag)
        ensures
            tag@ == self@.with("src"@, Some(val@)),
    {
        self.attr("src", val)
    }

    /// Adds the attribute `integrity` with a value.
    pub fn integrity(self, val: &str) -> (tag: Tag)
        ensures
            tag@ == self@.with("integrity"@, Some(val@)),
    {
        self.attr("integrity", val)
    }

    /// Adds the attribute `crossorigin` with a value.
    pub fn crossorigin(self, val: &str) -> (tag: Tag)
        ensures
            tag@ == self@.with("crossorigin"@, Some(val@)),
    {
        self.attr("crossorigin", val)
    }

    /// Adds the attribute `role` with a value.
    pub fn role(self, val: &str) -> (tag: Tag)
        ensures
            tag@ == self@.with("role"@, Some(val@)),
    {
        self.attr("role", val)
    }

    /// Adds the attribute `method` with a value.
    pub fn method(self, val: &str) -> (tag: Tag)
        ensures
            tag@ == self@.with("method"@, Some(val@)),
    {
        self.attr("method", val)
    }

    /// Adds the attribute `action` with a value.
    pub fn action(self, val: &str) -> (tag: Tag)
        ensures
            tag@ == self@.with("action"@, Some(val@)),
    {
        self.attr("action", val)
    }

    /// Adds the attribute `placeholder` with a value.
    pub fn placeholder(self, val: &str) -> (tag: Tag)
        ensures
            tag@ == self@.with("placeholder"@, Some(val@)),
    {
        self.attr("placeholder", val)
    }

    /// Adds the attribute `value` with a value.
    pub fn value(self, val: &str) -> (tag: Tag)
        ensures
            tag@ == self@.with("value"@, Some(val@)),
    {
        self.attr("value", val)
    }

    /// Adds the attribute `rows` with a value.
    pub fn rows(self, val: &str) -> (tag: Tag)
        ensures
            tag@ == self@.with("rows"@, Some(val@)),
    {
        self.attr("rows", val)
    }

    /// Adds the attribute `alt` with a value.
    pub fn alt(self, val: &str) -> (tag: Tag)
        ensures
            tag@ == self@.with("alt"@, Some(val@)),
    {
        self.attr("alt", val)
    }

    /// Adds the attribute `style` with a value.
    pub fn style(self, val: &str) -> (tag: Tag)
        ensures
            tag@ == self@.with("style"@, Some(val@)),
    {
        self.attr("style", val)
    }

    /// Adds the attribute `onclick` with a value.
    pub fn onclick(self, val: &str) -> (tag: Tag)
        ensures
            tag@ == self@.with("onclick"@, Some(val@)),
    {
        self.attr("onclick", val)
    }

    /// Adds the attribute `placement` with a value.
    pub fn placement(self, val: &str) -> (tag: Tag)
        ensures
            tag@ == self@.with("placement"@, Some(val@)),
    {
        self.attr("placement", val)
    }

    /// Adds the attribute `toggle` with a value.
    pub fn toggle(self, val: &str) -> (tag: Tag)
        ensures
            tag@ == self@.with("toggle"@, Some(val@)),
    {
        self.attr("toggle", val)
    }

    /// Adds the attribute `scope` with a value.
    pub fn scope(self, val: &str) -> (tag: Tag)
        ensures
            tag@ == self@.with("scope"@, Some(val@)),
    {
        self.attr("scope", val)
    }

    /// Adds the attribute `title` with a value.
    pub fn title(self, val: &str) -> (tag: Tag)
        ensures
            tag@ == self@.with("title"@, Some(val@)),
    {
        self.attr("title", val)
    }

    /// Adds the attribute `checked`, which has no value.
    pub fn checked(self) -> (tag: Tag)
        ensures
            tag@ == self@.with("checked"@, None),
    {
        self.attr1("checked")
    }

    /// Adds the attribute `enabled`, which has no value.
    pub fn enabled(self) -> (tag: Tag)
        ensures
            tag@ == self@.with("enabled"@, None),
    {
        self.attr1("enabled")
    }

    /// Adds the attribute `disabled`, which has no value.
    pub fn disabled(self) -> (tag: Tag)
        ensures
            tag@ == self@.with("disabled"@, None),
    {
        self.attr1("disabled")
    }

    /// Adds the attribute `type` with a value.
    pub fn type_(self, val: &str) -> (tag: Tag)
        ensures
            tag@ == self@.with("type"@, Some(val@)),
    {
        self.attr("type", val)
    }

    /// Adds the attribute `data-toggle` with a value.
    pub fn data_toggle(self, val: &str) -> (tag: Tag)
        ensures
            tag@ == self@.with("data-toggle"@, Some(val@)),
    {
        self.attr("data-toggle", val)
    }

    /// Adds the attribute `data-target` with a value.
    pub fn data_target(self, val: &str) -> (tag: Tag)
        ensures
            tag@ == self@.with("data-target"@, Some(val@)),
    {
        self.attr("data-target", val)
    }

    /// Adds the attribute `data-placement` with a value.
    pub fn data_placement(self, val: &str) -> (tag: Tag)
        ensures
            tag@ == self@.with("data-placement"@, Some(val@)),
    {
        self.attr("data-placement", val)
    }

    /// Adds the attribute `aria-controls` with a value.
    pub fn aria_controls(self, val: &str) -> (tag: Tag)
        ensures
            tag@ == self@.with("aria-controls"@, Some(val@)),
    {
        self.attr("aria-controls", val)
    }

    /// Adds the attribute `aria-expanded` with a value.
    pub fn aria_expanded(self, val: &str) -> (tag: Tag)
        ensures
            tag@ == self@.with("aria-expanded"@, Some(val@)),
    {
        self.attr("aria-expanded", val)
    }

    /// Adds the attribute `aria-label` with a value.
    pub fn aria_label(self, val: &str) -> (tag: Tag)
        ensures
            tag@ == self@.with("aria-label"@, Some(val@)),
    {
        self.attr("aria-label", val)
    }

    /// Adds the attribute `aria-haspopup` with a value.
    pub fn aria_haspopup(self, val: &str) -> (tag: Tag)
        ensures
            tag@ == self@.with("aria-haspopup"@, Some(val@)),
    {
        self.attr("aria-haspopup", val)
    }

    /// Adds the attribute `aria-labelledby` with a value.
    pub fn aria_labelledby(self, val: &str) -> (tag: Tag)
        ensures
            tag@ == self@.with("aria-labelledby"@, Some(val@)),
    {
        self.attr("aria-labelledby", val)
    }

    /// Adds the attribute `aria-current` with a value.
    pub fn aria_current(self, val: &str) -> (tag: Tag)
        ensures
            tag@ == self@.with("aria-current"@, Some(val@)),
    {
        self.attr("aria-current", val)
    }

    /// Adds the attribute `for` with a value.
    pub fn for_(self, val: &str) -> (tag: Tag)
        ensures
            tag@ == self@.with("for"@, Some(val@)),
    {
        self.attr("for", val)
    }
}

/// One method for each common attribute.
impl BareTag {
    /// Adds the attribute `class` with a value.
    pub fn class(self, val: &str) -> (tag: Tag)
        ensures
            tag@ == self@.with("class"@, Some(val@)),
    {
        self.attr("class", val)
    }

    /// Adds the attribute `id` with a value.
    pub fn id(self, val: &str) -> (tag: Tag)
        ensures
            tag@ == self@.with("id"@, Some(val@)),
    {
        self.attr("id", val)
    }

    /// Adds the attribute `charset` with a value.
    pub fn charset(self, val: &str) -> (tag: Tag)
        ensures
            tag@ == self@.with("charset"@, Some(val@)),
    {
        self.attr("charset", val)
    }

    /// Adds the attribute `content` with a value.
    pub fn content(self, val: &str) -> (tag: Tag)
        ensures
            tag@ == self@.with("content"@, Some(val@)),
    {
        self.attr("content", val)
    }

    /// Adds the attribute `name` with a value.
    pub fn name(self, val: &str) -> (tag: Tag)
        ensures
            tag@ == self@.with("name"@, Some(val@)),
    {
        self.attr("name", val)
    }

    /// Adds the attribute `href` with a value.
    pub fn href(self, val: &str) -> (tag: Tag)
        ensures
            tag@ == self@.with("href"@, Some(val@)),
    {
        self.attr("href", val)
    }

    /// Adds the attribute `rel` with a value.
    pub fn rel(self, val: &str) -> (tag: Tag)
        ensures
            tag@ == self@.with("rel"@, Some(val@)),
    {
        self.attr("rel", val)
    }

    /// Adds the attribute `src` with a value.
    pub fn src(self, val: &str) -> (tag: Tag)
        ensures
            tag@ == self@.with("src"@, Some(val@)),
    {
        self.attr("src", val)
    }

    /// Adds the attribute `integrity` with a value.
    pub fn integrity(self, val: &str) -> (tag: Tag)
        ensures
            tag@ == self@.with("integrity"@, Some(val@)),
    {
        self.attr("integrity", val)
    }

    /// Adds the attribute `crossorigin` with a value.
    pub fn crossorigin(self, val: &str) -> (tag: Tag)
        ensures
            tag@ == self@.with("crossorigin"@, Some(val@)),
    {
        self.attr("crossorigin", val)
    }

    /// Adds the attribute `role` with a value.
    pub fn role(self, val: &str) -> (tag: Tag)
        ensures
            tag@ == self@.with("role"@, Some(val@)),
    {
        self.attr("role", val)
    }

    /// Adds the attribute `method` with a value.
    pub fn method(self, val: &str) -> (tag: Tag)
        ensures
            tag@ == self@.with("method"@, Some(val@)),
    {
        self.attr("method", val)
    }

    /// Adds the attribute `action` with a value.
    pub fn action(self, val: &str) -> (tag: Tag)
        ensures
            tag@ == self@.with("action"@, Some(val@)),
    {
        self.attr("action", val)
    }

    /// Adds the attribute `placeholder` with a value.
    pub fn placeholder(self, val: &str) -> (tag: Tag)
        ensures
            tag@ == self@.with("placeholder"@, Some(val@)),
    {
        self.attr("placeholder", val)
    }

    /// Adds the attribute `value` with a value.
    pub fn value(self, val: &str) -> (tag: Tag)
        ensures
            tag@ == self@.with("value"@, Some(val@)),
    {
        self.attr("value", val)
    }

    /// Adds the attribute `rows` with a value.
    pub fn rows(self, val: &str) -> (tag: Tag)
        ensures
            tag@ == self@.with("rows"@, Some(val@)),
    {
        self.attr("rows", val)
    }

    /// Adds the attribute `alt` with a value.
    pub fn alt(self, val: &str) -> (tag: Tag)
        ensures
            tag@ == self@.with("alt"@, Some(val@)),
    {
        self.attr("alt", val)
    }

    /// Adds the attribute `style` with a value.
    pub fn style(self, val: &str) -> (tag: Tag)
        ensures
            tag@ == self@.with("style"@, Some(val@)),
    {
        self.attr("style", val)
    }

    /// Adds the attribute `onclick` with a value.
    pub fn onclick(self, val: &str) -> (tag: Tag)
        ensures
            tag@ == self@.with("onclick"@, Some(val@)),
    {
        self.attr("onclick", val)
    }

    /// Adds the attribute `placement` with a value.
    pub fn placement(self, val: &str) -> (tag: Tag)
        ensures
            tag@ == self@.with("placement"@, Some(val@)),
    {
        self.attr("placement", val)
    }

    /// Adds the attribute `toggle` with a value.
    pub fn toggle(self, val: &str) -> (tag: Tag)
        ensures
            tag@ == self@.with("toggle"@, Some(val@)),
    {
        self.attr("toggle", val)
    }

    /// Adds the attribute `scope` with a value.
    pub fn scope(self, val: &str) -> (tag: Tag)
        ensures
            tag@ == self@.with("scope"@, Some(val@)),
    {
        self.attr("scope", val)
    }

    /// Adds the attribute `title` with a value.
    pub fn title(self, val: &str) -> (tag: Tag)
        ensures
            tag@ == self@.with("title"@, Some(val@)),
    {
        self.attr("title", val)
    }

    /// Adds the attribute `checked`, which has no value.
    pub fn checked(self) -> (tag: Tag)
        ensures
            tag@ == self@.with("checked"@, None),
    {
        self.attr1("checked")
    }

    /// Adds the attribute `enabled`, which has no value.
    pub fn enabled(self) -> (tag: Tag)
        ensures
            tag@ == self@.with("enabled"@, None),
    {
        self.attr1("enabled")
    }

    /// Adds the attribute `disabled`, which has no value.
    pub fn disabled(self) -> (tag: Tag)
        ensures
            tag@ == self@.with("disabled"@, None),
    {
        self.attr1("disabled")
    }

    /// Adds the attribute `type` with a value.
    pub fn type_(self, val: &str) -> (tag: Tag)
        ensures
            tag@ == self@.with("type"@, Some(val@)),
    {
        self.attr("type", val)
    }

    /// Adds the attribute `data-toggle` with a value.
    pub fn data_toggle(self, val: &str) -> (tag: Tag)
        ensures
            tag@ == self@.with("data-toggle"@, Some(val@)),
    {
        self.attr("data-toggle", val)
    }

    /// Adds the attribute `data-target` with a value.
    pub fn data_target(self, val: &str) -> (tag: Tag)
        ensures
            tag@ == self@.with("data-target"@, Some(val@)),
    {
        self.attr("data-target", val)
    }

    /// Adds the attribute `data-placement` with a value.
    pub fn data_placement(self, val: &str) -> (tag: Tag)
        ensures
            tag@ == self@.with("data-placement"@, Some(val@)),
    {
        self.attr("data-placement", val)
    }

    /// Adds the attribute `aria-controls` with a value.
    pub fn aria_controls(self, val: &str) -> (tag: Tag)
        ensures
            tag@ == self@.with("aria-controls"@, Some(val@)),
    {
        self.attr("aria-controls", val)
    }

    /// Adds the attribute `aria-expanded` with a value.
    pub fn aria_expanded(self, val: &str) -> (tag: Tag)
        ensures
            tag@ == self@.with("aria-expanded"@, Some(val@)),
    {
        self.attr("aria-expanded", val)
    }

    /// Adds the attribute `aria-label` with a value.
    pub fn aria_label(self, val: &str) -> (tag: Tag)
        ensures
            tag@ == self@.with("aria-label"@, Some(val@)),
    {
        self.attr("aria-label", val)
    }

    /// Adds the attribute `aria-haspopup` with a value.
    pub fn aria_haspopup(self, val: &str) -> (tag: Tag)
        ensures
            tag@ == self@.with("aria-haspopup"@, Some(val@)),
    {
        self.attr("aria-haspopup", val)
    }

    /// Adds the attribute `aria-labelledby` with a value.
    pub fn aria_labelledby(self, val: &str) -> (tag: Tag)
        ensures
            tag@ == self@.with("aria-labelledby"@, Some(val@)),
    {
        self.attr("aria-labelledby", val)
    }

    /// Adds the attribute `aria-current` with a value.
    pub fn aria_current(self, val: &str) -> (tag: Tag)
        ensures
            tag@ == self@.with("aria-current"@, Some(val@)),
    {
        self.attr("aria-current", val)
    }

    /// Adds the attribute `for` with a value.
    pub fn for_(self, val: &str) -> (tag: Tag)
        ensures
            tag@ == self@.with("for"@, Some(val@)),
    {
        self.attr("for", val)
    }
}

} // verus!
