//! A category that a channel or an item belongs to, and its builder.
use vstd::prelude::*;
use crate::utils::{
    empty_field_error, empty_field_message, field_message, invalid_url_message, is_url, str_to_url,
    with_field,
};

verus! {

/// A category, with the URI of the taxonomy that it is taken from.
pub struct Category {
    pub name: String,
    pub domain: Option<String>,
}

impl Clone for Category {
    fn clone(&self) -> (r: Self)
        ensures
            r == *self,
    {
        Category { name: self.name.clone(), domain: self.domain.clone() }
    }
}

impl Category {
    /// The `name` field.
    pub fn name(&self) -> (r: String)
        ensures
            r == self.name,
    {
        self.name.clone()
    }

    /// The `domain` field.
    pub fn domain(&self) -> (r: Option<String>)
        ensures
            r == self.domain,
    {
        self.domain.clone()
    }
}

/// Collects the fields of a [`Category`].
pub struct CategoryBuilder {
    pub name: String,
    pub domain: Option<String>,
}

/// The first constraint that the builder's fields break, as its message.
pub open spec fn category_error(b: CategoryBuilder) -> Option<Seq<char>> {
    if b.name@.len() == 0 {
        Some(field_message("Category name"@, empty_field_message()))
    } else if b.domain is Some && !is_url(b.domain->0@) {
        Some(field_message("Category domain"@, invalid_url_message(b.domain->0@)))
    } else {
        None
    }
}

/// The category that a builder yields.
pub open spec fn category_of(b: CategoryBuilder, c: Category) -> bool {
    c.name == b.name && c.domain == b.domain
}

impl Default for CategoryBuilder {
    /// The same builder as `new` makes.
    fn default() -> (r: CategoryBuilder)
        ensures
            r.name@ == Seq::<char>::empty(),
            r.domain is None,
    {
        CategoryBuilder::new()
    }
}

impl CategoryBuilder {
    /// A builder with an empty name and no domain.
    pub fn new() -> (r: CategoryBuilder)
        ensures
            r.name@ == Seq::<char>::empty(),
            r.domain is None,
    {
        CategoryBuilder { name: String::new(), domain: None }
    }

    /// Sets `name`, as given, and returns the builder.
    pub fn name(&mut self, name: &str) -> (r: &mut CategoryBuilder)
        ensures
            r.name@ == name@,
            r.domain == old(self).domain,
            *final(self) == *final(r),
    {
        self.name = name.to_owned();
        self
    }

    /// Sets `domain`, as given, and returns the builder.
    pub fn domain(&mut self, domain: Option<String>) -> (r: &mut CategoryBuilder)
        ensures
            r.name == old(self).name,
            r.domain == domain,
            *final(self) == *final(r),
    {
        self.domain = domain;
        self
    }

    /// Checks that the name is not empty and that the domain, when there is
    /// one, parses as a URL.
    pub fn validate(&mut self) -> (r: Result<&mut CategoryBuilder, String>)
        ensures
            match r {
                Ok(b) => category_error(*old(self)) is None && *b == *old(self) && *final(self)
                    == *final(b),
                Err(e) => category_error(*old(self)) == Some(e@) && *final(self) == *old(self),
            },
    {
        if self.name.as_str().is_empty() {
            return Err(with_field("Category name", empty_field_error()));
        }
        match &self.domain {
            Some(d) => match str_to_url(d.as_str()) {
                Ok(_) => {},
                Err(e) => {
                    return Err(with_field("Category domain", e));
                },
            },
            None => {},
        }
        Ok(self)
    }

    /// Builds the category; this never fails.
    pub fn finalize(&self) -> (r: Result<Category, String>)
        ensures
            r matches Ok(c) && category_of(*self, c),
    {
        Ok(Category { name: self.name.clone(), domain: self.domain.clone() })
    }
}

} // verus!
