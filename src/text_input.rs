//! The text box shown with a channel, and its builder.
use vstd::prelude::*;
use crate::utils::{field_message, invalid_url_message, is_url, str_to_url, with_field};

verus! {

/// A text box shown with a channel, and the script that processes it.
pub struct TextInput {
    pub title: String,
    pub description: String,
    pub name: String,
    pub link: String,
}

impl Clone for TextInput {
    fn clone(&self) -> (r: Self)
        ensures
            r == *self,
    {
        TextInput {
            title: self.title.clone(),
            description: self.description.clone(),
            name: self.name.clone(),
            link: self.link.clone(),
        }
    }
}

impl TextInput {
    /// The `title` field.
    pub fn title(&self) -> (r: String)
        ensures
            r == self.title,
    {
        self.title.clone()
    }

    /// The `description` field.
    pub fn description(&self) -> (r: String)
        ensures
            r == self.description,
    {
        self.description.clone()
    }

    /// The `name` field.
    pub fn name(&self) -> (r: String)
        ensures
            r == self.name,
    {
        self.name.clone()
    }

    /// The `link` field.
    pub fn link(&self) -> (r: String)
        ensures
            r == self.link,
    {
        self.link.clone()
    }
}

/// Collects the fields of a [`TextInput`].
pub struct TextInputBuilder {
    pub title: String,
    pub description: String,
    pub name: String,
    pub link: String,
}

/// The first constraint that the builder's fields break, as its message.
pub open spec fn text_input_error(b: TextInputBuilder) -> Option<Seq<char>> {
    if !is_url(b.link@) {
        Some(field_message("TextInput link"@, invalid_url_message(b.link@)))
    } else {
        None
    }
}

/// The text input that a builder yields.
pub open spec fn text_input_of(b: TextInputBuilder, t: TextInput) -> bool {
    &&& t.title == b.title
    &&& t.description == b.description
    &&& t.name == b.name
    &&& t.link == b.link
}

impl Default for TextInputBuilder {
    /// The same builder as `new` makes.
    fn default() -> (r: TextInputBuilder)
        ensures
            r.title@ == Seq::<char>::empty(),
            r.description@ == Seq::<char>::empty(),
            r.name@ == Seq::<char>::empty(),
            r.link@ == Seq::<char>::empty(),
    {
        TextInputBuilder::new()
    }
}

impl TextInputBuilder {
    /// A builder with empty fields.
    pub fn new() -> (r: TextInputBuilder)
        ensures
            r.title@ == Seq::<char>::empty(),
            r.description@ == Seq::<char>::empty(),
            r.name@ == Seq::<char>::empty(),
            r.link@ == Seq::<char>::empty(),
    {
        TextInputBuilder {
            title: String::new(),
            description: String::new(),
            name: String::new(),
            link: String::new(),
        }
    }

    /// Sets `title`, as given, and returns the builder.
    pub fn title(&mut self, title: &str) -> (r: &mut TextInputBuilder)
        ensures
            *r == (TextInputBuilder { title: r.title, ..*old(self) }),
            r.title@ == title@,
            *final(self) == *final(r),
    {
        self.title = title.to_owned();
        self
    }

    /// Sets `description`, as given, and returns the builder.
    pub fn description(&mut self, description: &str) -> (r: &mut TextInputBuilder)
        ensures
            *r == (TextInputBuilder { description: r.description, ..*old(self) }),
            r.description@ == description@,
            *final(self) == *final(r),
    {
        self.description = description.to_owned();
        self
    }

    /// Sets `name`, as given, and returns the builder.
    pub fn name(&mut self, name: &str) -> (r: &mut TextInputBuilder)
        ensures
            *r == (TextInputBuilder { name: r.name, ..*old(self) }),
            r.name@ == name@,
            *final(self) == *final(r),
    {
        self.name = name.to_owned();
        self
    }

    /// Sets `link`, as given, and returns the builder.
    pub fn link(&mut self, link: &str) -> (r: &mut TextInputBuilder)
        ensures
            *r == (TextInputBuilder { link: r.link, ..*old(self) }),
            r.link@ == link@,
            *final(self) == *final(r),
    {
        self.link = link.to_owned();
        self
    }

    /// Checks that the link parses as a URL.
    pub fn validate(&mut self) -> (r: Result<&mut TextInputBuilder, String>)
        ensures
            match r {
                Ok(b) => text_input_error(*old(self)) is None && *b == *old(self) && *final(self)
                    == *final(b),
                Err(e) => text_input_error(*old(self)) == Some(e@) && *final(self) == *old(self),
            },
    {
        match str_to_url(self.link.as_str()) {
            Ok(_) => Ok(self),
            Err(e) => Err(with_field("TextInput link", e)),
        }
    }

    /// Builds the text input; this never fails.
    pub fn finalize(&self) -> (r: Result<TextInput, String>)
        ensures
            r matches Ok(t) && text_input_of(*self, t),
    {
        Ok(
            TextInput {
                title: self.title.clone(),
                description: self.description.clone(),
                name: self.name.clone(),
                link: self.link.clone(),
            },
        )
    }
}

} // verus!
