//! The feed that an item was taken from, and its builder.
use vstd::prelude::*;
use crate::utils::{field_message, invalid_url_message, is_url, str_to_url, with_field};

verus! {

/// The feed that an item was taken from.
pub struct Source {
    pub url: String,
    pub title: Option<String>,
}

impl Clone for Source {
    fn clone(&self) -> (r: Self)
        ensures
            r == *self,
    {
        Source { url: self.url.clone(), title: self.title.clone() }
    }
}

impl Source {
    /// The `url` field.
    pub fn url(&self) -> (r: String)
        ensures
            r == self.url,
    {
        self.url.clone()
    }

    /// The `title` field.
    pub fn title(&self) -> (r: Option<String>)
        ensures
            r == self.title,
    {
        self.title.clone()
    }
}

/// Collects the fields of a [`Source`].
pub struct SourceBuilder {
    pub url: String,
    pub title: Option<String>,
}

/// The first constraint that the builder's fields break, as its message.
pub open spec fn source_error(b: SourceBuilder) -> Option<Seq<char>> {
    if !is_url(b.url@) {
        Some(field_message("Source url"@, invalid_url_message(b.url@)))
    } else {
        None
    }
}

/// The source that a builder yields.
pub open spec fn source_of(b: SourceBuilder, s: Source) -> bool {
    s.url == b.url && s.title == b.title
}

impl Default for SourceBuilder {
    /// The same builder as `new` makes.
    fn default() -> (r: SourceBuilder)
        ensures
            r.url@ == Seq::<char>::empty(),
            r.title is None,
    {
        SourceBuilder::new()
    }
}

impl SourceBuilder {
    /// A builder with an empty url and no title.
    pub fn new() -> (r: SourceBuilder)
        ensures
            r.url@ == Seq::<char>::empty(),
            r.title is None,
    {
        SourceBuilder { url: String::new(), title: None }
    }

    /// Sets `url`, as given, and returns the builder.
    pub fn url(&mut self, url: &str) -> (r: &mut SourceBuilder)
        ensures
            r.url@ == url@,
            r.title == old(self).title,
            *final(self) == *final(r),
    {
        self.url = url.to_owned();
        self
    }

    /// Sets `title`, as given, and returns the builder.
    pub fn title(&mut self, title: Option<String>) -> (r: &mut SourceBuilder)
        ensures
            r.url == old(self).url,
            r.title == title,
            *final(self) == *final(r),
    {
        self.title = title;
        self
    }

    /// Checks that the url parses.
    pub fn validate(&mut self) -> (r: Result<&mut SourceBuilder, String>)
        ensures
            match r {
                Ok(b) => source_error(*old(self)) is None && *b == *old(self) && *final(self)
                    == *final(b),
                Err(e) => source_error(*old(self)) == Some(e@) && *final(self) == *old(self),
            },
    {
        match str_to_url(self.url.as_str()) {
            Ok(_) => Ok(self),
            Err(e) => Err(with_field("Source url", e)),
        }
    }

    /// Builds the source; this never fails.
    pub fn finalize(&self) -> (r: Result<Source, String>)
        ensures
            r matches Ok(s) && source_of(*self, s),
    {
        Ok(Source { url: self.url.clone(), title: self.title.clone() })
    }
}

} // verus!
