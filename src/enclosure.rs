//! A media object attached to an item, and its builder.
use vstd::prelude::*;
use crate::utils::{
    decimal, field_message, i64_to_string, invalid_mime_message, invalid_url_message, is_mime,
    is_url, negative_value_message, str_to_mime, str_to_url, with_field,
};

verus! {

/// A media object attached to an item: where it is, its size in bytes
/// written in decimal, and its MIME type.
pub struct Enclosure {
    pub url: String,
    pub length: String,
    pub mime_type: String,
}

impl Clone for Enclosure {
    fn clone(&self) -> (r: Self)
        ensures
            r == *self,
    {
        Enclosure {
            url: self.url.clone(),
            length: self.length.clone(),
            mime_type: self.mime_type.clone(),
        }
    }
}

impl Enclosure {
    /// The `url` field.
    pub fn url(&self) -> (r: String)
        ensures
            r == self.url,
    {
        self.url.clone()
    }

    /// The `length` field.
    pub fn length(&self) -> (r: String)
        ensures
            r == self.length,
    {
        self.length.clone()
    }

    /// The `mime_type` field.
    pub fn mime_type(&self) -> (r: String)
        ensures
            r == self.mime_type,
    {
        self.mime_type.clone()
    }
}

/// Whether two enclosures hold the same values, field by field.
pub open spec fn enclosure_eq(a: Enclosure, b: Enclosure) -> bool {
    &&& a.url == b.url
    &&& a.length@ == b.length@
    &&& a.mime_type == b.mime_type
}

/// Collects the fields of an [`Enclosure`].
pub struct EnclosureBuilder {
    pub url: String,
    pub length: i64,
    pub mime_type: String,
}

/// The first constraint that the builder's fields break, as its message.
pub open spec fn enclosure_error(b: EnclosureBuilder) -> Option<Seq<char>> {
    if !is_url(b.url@) {
        Some(field_message("Enclosure url"@, invalid_url_message(b.url@)))
    } else if !is_mime(b.mime_type@) {
        Some(field_message("Enclosure mime_type"@, invalid_mime_message(b.mime_type@)))
    } else if b.length < 0 {
        Some(field_message("Enclosure length"@, negative_value_message(b.length as int)))
    } else {
        None
    }
}

/// The enclosure that a builder yields once its length is not negative.
pub open spec fn enclosure_of(b: EnclosureBuilder, e: Enclosure) -> bool {
    &&& e.url == b.url
    &&& e.length@ == decimal(b.length as nat)
    &&& e.mime_type == b.mime_type
}

impl Default for EnclosureBuilder {
    /// The same builder as `new` makes.
    fn default() -> (r: EnclosureBuilder)
        ensures
            r.url@ == Seq::<char>::empty(),
            r.length == 0,
            r.mime_type@ == Seq::<char>::empty(),
    {
        EnclosureBuilder::new()
    }
}

impl EnclosureBuilder {
    /// A builder with empty text fields and a length of zero.
    pub fn new() -> (r: EnclosureBuilder)
        ensures
            r.url@ == Seq::<char>::empty(),
            r.length == 0,
            r.mime_type@ == Seq::<char>::empty(),
    {
        EnclosureBuilder { url: String::new(), length: 0, mime_type: String::new() }
    }

    /// Sets `url`, as given, and returns the builder.
    pub fn url(&mut self, url: &str) -> (r: &mut EnclosureBuilder)
        ensures
            r.url@ == url@,
            r.length == old(self).length,
            r.mime_type == old(self).mime_type,
            *final(self) == *final(r),
    {
        self.url = url.to_owned();
        self
    }

    /// Sets `length`, as given, and returns the builder.
    pub fn length(&mut self, length: i64) -> (r: &mut EnclosureBuilder)
        ensures
            r.url == old(self).url,
            r.length == length,
            r.mime_type == old(self).mime_type,
            *final(self) == *final(r),
    {
        self.length = length;
        self
    }

    /// Sets `mime_type`, as given, and returns the builder.
    pub fn mime_type(&mut self, mime_type: &str) -> (r: &mut EnclosureBuilder)
        ensures
            r.url == old(self).url,
            r.length == old(self).length,
            r.mime_type@ == mime_type@,
            *final(self) == *final(r),
    {
        self.mime_type = mime_type.to_owned();
        self
    }

    /// Checks that the url and the MIME type parse and that the length is not
    /// negative, in that order; the first failure is the error.
    pub fn validate(&mut self) -> (r: Result<&mut EnclosureBuilder, String>)
        ensures
            match r {
                Ok(b) => enclosure_error(*old(self)) is None && *b == *old(self) && *final(self)
                    == *final(b),
                Err(e) => enclosure_error(*old(self)) == Some(e@) && *final(self) == *old(self),
            },
    {
        match str_to_url(self.url.as_str()) {
            Ok(_) => {},
            Err(e) => {
                return Err(with_field("Enclosure url", e));
            },
        }
        match str_to_mime(self.mime_type.as_str()) {
            Ok(_) => {},
            Err(e) => {
                return Err(with_field("Enclosure mime_type", e));
            },
        }
        if self.length < 0 {
            match i64_to_string(self.length) {
                Ok(_) => {},
                Err(e) => {
                    return Err(with_field("Enclosure length", e));
                },
            }
        }
        Ok(self)
    }

    /// Builds the enclosure, with the length written in decimal; fails only
    /// when the length is negative.
    pub fn finalize(&self) -> (r: Result<Enclosure, String>)
        ensures
            r is Ok <==> self.length >= 0,
            r matches Ok(e) ==> enclosure_of(*self, e),
            r matches Err(e) ==> e@ == field_message(
                "Enclosure length"@,
                negative_value_message(self.length as int),
            ),
    {
        match i64_to_string(self.length) {
            Ok(length) => Ok(
                Enclosure { url: self.url.clone(), length, mime_type: self.mime_type.clone() },
            ),
            Err(e) => Err(with_field("Enclosure length", e)),
        }
    }
}

} // verus!
