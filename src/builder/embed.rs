//! Builders for the author, footer and fields of an embed.
//!
//! Unlike serenity's builders, these keep each value in a field of its own,
//! so that values set somewhere can be read back elsewhere.

use vstd::prelude::*;

verus! {

/// The view of an optional string.
pub open spec fn opt_view(s: Option<String>) -> Option<Seq<char>> {
    match s {
        Some(v) => Some(v@),
        None => None,
    }
}

/// A builder for the author part of an embed. The name cannot be empty; the
/// other fields are optional.
#[derive(Clone, Debug)]
pub struct EmbedAuthorBuilder {
    /// The icon URL of the author. This only supports HTTP(S).
    pub icon_url: Option<String>,
    /// The name of the author.
    pub name: String,
    /// The URL of the author.
    pub url: Option<String>,
}

impl EmbedAuthorBuilder {
    /// Creates a new [`EmbedAuthorBuilder`] with this name.
    pub fn new(name: &str) -> (r: Self)
        ensures
            r.name@ == name@,
            r.icon_url is None,
            r.url is None,
    {
        EmbedAuthorBuilder { icon_url: None, name: String::from_str(name), url: None }
    }

    /// Sets the author's icon URL; returns the builder for chaining.
    pub fn set_icon_url(&mut self, icon_url: &str) -> (r: &mut Self)
        ensures
            opt_view((*r).icon_url) == Some(icon_url@),
            (*r).name == old(self).name,
            (*r).url == old(self).url,
            *final(self) == *final(r),
    {
        self.icon_url = Some(String::from_str(icon_url));
        self
    }

    /// Sets the author's name; returns the builder for chaining.
    pub fn set_name(&mut self, name: &str) -> (r: &mut Self)
        ensures
            (*r).name@ == name@,
            (*r).icon_url == old(self).icon_url,
            (*r).url == old(self).url,
            *final(self) == *final(r),
    {
        self.name = String::from_str(name);
        self
    }

    /// Sets the author's URL; returns the builder for chaining.
    pub fn set_url(&mut self, url: &str) -> (r: &mut Self)
        ensures
            opt_view((*r).url) == Some(url@),
            (*r).name == old(self).name,
            (*r).icon_url == old(self).icon_url,
            *final(self) == *final(r),
    {
        self.url = Some(String::from_str(url));
        self
    }
}

/// A builder for the footer part of an embed. The text cannot be empty; the
/// icon URL is optional.
#[derive(Clone, Debug)]
pub struct EmbedFooterBuilder {
    /// The icon URL of the footer. This only supports HTTP(S).
    pub icon_url: Option<String>,
    /// The text of the footer.
    pub text: String,
}

impl EmbedFooterBuilder {
    /// Creates a new [`EmbedFooterBuilder`] with this text.
    pub fn new(text: &str) -> (r: Self)
        ensures
            r.text@ == text@,
            r.icon_url is None,
    {
        EmbedFooterBuilder { icon_url: None, text: String::from_str(text) }
    }

    /// Sets the footer's icon URL; returns the builder for chaining.
    pub fn set_icon_url(&mut self, icon_url: &str) -> (r: &mut Self)
        ensures
            opt_view((*r).icon_url) == Some(icon_url@),
            (*r).text == old(self).text,
            *final(self) == *final(r),
    {
        self.icon_url = Some(String::from_str(icon_url));
        self
    }

    /// Sets the footer's text; returns the builder for chaining.
    pub fn set_text(&mut self, text: &str) -> (r: &mut Self)
        ensures
            (*r).text@ == text@,
            (*r).icon_url == old(self).icon_url,
            *final(self) == *final(r),
    {
        self.text = String::from_str(text);
        self
    }
}

/// A builder for a field of an embed. No part is optional.
#[derive(Clone, Debug)]
pub struct EmbedFieldBuilder {
    /// Whether the field is shown inline.
    pub inline: bool,
    /// The name of the field, at most 512 characters.
    pub name: String,
    /// The value of the field, at most 1024 characters.
    pub value: String,
}

impl EmbedFieldBuilder {
    /// Creates a new [`EmbedFieldBuilder`].
    pub fn new(name: &str, value: &str, inline: bool) -> (r: Self)
        ensures
            r.name@ == name@,
            r.value@ == value@,
            r.inline == inline,
    {
        EmbedFieldBuilder { name: String::from_str(name), value: String::from_str(value), inline }
    }

    /// Sets the field's name; returns the builder for chaining.
    pub fn set_name(&mut self, name: &str) -> (r: &mut Self)
        ensures
            (*r).name@ == name@,
            (*r).value == old(self).value,
            (*r).inline == old(self).inline,
            *final(self) == *final(r),
    {
        self.name = String::from_str(name);
        self
    }

    /// Sets the field's value; returns the builder for chaining.
    pub fn set_value(&mut self, value: &str) -> (r: &mut Self)
        ensures
            (*r).value@ == value@,
            (*r).name == old(self).name,
            (*r).inline == old(self).inline,
            *final(self) == *final(r),
    {
        self.value = String::from_str(value);
        self
    }

    /// Sets whether the field is shown inline; returns the builder for
    /// chaining.
    pub fn set_inline(&mut self, inline: bool) -> (r: &mut Self)
        ensures
            *r == (EmbedFieldBuilder { inline, ..*old(self) }),
            *final(self) == *final(r),
    {
        self.inline = inline;
        self
    }
}

} // verus!
