//! The picture shown with a channel, and its builder.
use vstd::prelude::*;
use crate::utils::{
    field_message, i64_to_string, invalid_url_message, is_url, negative_value_message,
    opt_decimal_of, opt_i64_to_string, opt_not_negative, opt_text_eq, str_to_url, too_large_error,
    too_large_message, with_field,
};

verus! {

/// The largest width in pixels that a channel image may have.
pub const MAX_WIDTH: i64 = 144;

/// The largest height in pixels that a channel image may have.
pub const MAX_HEIGHT: i64 = 400;

/// A picture shown with a channel; its size, when given, is written in
/// decimal.
pub struct Image {
    pub url: String,
    pub title: String,
    pub link: String,
    pub width: Option<String>,
    pub height: Option<String>,
    pub description: Option<String>,
}

impl Clone for Image {
    fn clone(&self) -> (r: Self)
        ensures
            r == *self,
    {
        Image {
            url: self.url.clone(),
            title: self.title.clone(),
            link: self.link.clone(),
            width: self.width.clone(),
            height: self.height.clone(),
            description: self.description.clone(),
        }
    }
}

impl Image {
    /// The `url` field.
    pub fn url(&self) -> (r: String)
        ensures
            r == self.url,
    {
        self.url.clone()
    }

    /// The `title` field.
    pub fn title(&self) -> (r: String)
        ensures
            r == self.title,
    {
        self.title.clone()
    }

    /// The `link` field.
    pub fn link(&self) -> (r: String)
        ensures
            r == self.link,
    {
        self.link.clone()
    }

    /// The `width` field.
    pub fn width(&self) -> (r: Option<String>)
        ensures
            r == self.width,
    {
        self.width.clone()
    }

    /// The `height` field.
    pub fn height(&self) -> (r: Option<String>)
        ensures
            r == self.height,
    {
        self.height.clone()
    }

    /// The `description` field.
    pub fn description(&self) -> (r: Option<String>)
        ensures
            r == self.description,
    {
        self.description.clone()
    }
}

/// Whether two images hold the same values, field by field.
pub open spec fn image_eq(a: Image, b: Image) -> bool {
    &&& a.url == b.url
    &&& a.title == b.title
    &&& a.link == b.link
    &&& opt_text_eq(a.width, b.width)
    &&& opt_text_eq(a.height, b.height)
    &&& a.description == b.description
}

/// Collects the fields of an [`Image`].
pub struct ImageBuilder {
    pub url: String,
    pub title: String,
    pub link: String,
    pub width: Option<i64>,
    pub height: Option<i64>,
    pub description: Option<String>,
}

/// The message of a size that breaks its bounds, if it does.
pub open spec fn size_error(field: Seq<char>, size: Option<i64>, max: i64) -> Option<Seq<char>> {
    match size {
        Some(n) => if n < 0 {
            Some(field_message(field, negative_value_message(n as int)))
        } else if n > max {
            Some(field_message(field, too_large_message(n as int, max as nat)))
        } else {
            None
        },
        None => None,
    }
}

/// The first constraint that the builder's fields break, as its message.
pub open spec fn image_error(b: ImageBuilder) -> Option<Seq<char>> {
    if !is_url(b.url@) {
        Some(field_message("Image url"@, invalid_url_message(b.url@)))
    } else if !is_url(b.link@) {
        Some(field_message("Image link"@, invalid_url_message(b.link@)))
    } else if size_error("Image width"@, b.width, MAX_WIDTH) is Some {
        size_error("Image width"@, b.width, MAX_WIDTH)
    } else {
        size_error("Image height"@, b.height, MAX_HEIGHT)
    }
}

/// The image that a builder yields once no size is negative.
pub open spec fn image_of(b: ImageBuilder, i: Image) -> bool {
    &&& i.url == b.url
    &&& i.title == b.title
    &&& i.link == b.link
    &&& opt_decimal_of(b.width, i.width)
    &&& opt_decimal_of(b.height, i.height)
    &&& i.description == b.description
}

/// Checks a size against its bounds.
fn check_size(field: &str, size: Option<i64>, max: i64) -> (r: Result<(), String>)
    requires
        max >= 0,
    ensures
        match r {
            Ok(_) => size_error(field@, size, max) is None,
            Err(e) => size_error(field@, size, max) == Some(e@),
        },
{
    match size {
        Some(n) => {
            if n < 0 {
                match i64_to_string(n) {
                    Ok(_) => Ok(()),
                    Err(e) => Err(with_field(field, e)),
                }
            } else if n > max {
                Err(with_field(field, too_large_error(n, max as u64)))
            } else {
                Ok(())
            }
        },
        None => Ok(()),
    }
}

impl Default for ImageBuilder {
    /// The same builder as `new` makes.
    fn default() -> (r: ImageBuilder)
        ensures
            r.url@ == Seq::<char>::empty(),
            r.title@ == Seq::<char>::empty(),
            r.link@ == Seq::<char>::empty(),
            r.width is None,
            r.height is None,
            r.description is None,
    {
        ImageBuilder::new()
    }
}

impl ImageBuilder {
    /// A builder with empty text fields and no size or description.
    pub fn new() -> (r: ImageBuilder)
        ensures
            r.url@ == Seq::<char>::empty(),
            r.title@ == Seq::<char>::empty(),
            r.link@ == Seq::<char>::empty(),
            r.width is None,
            r.height is None,
            r.description is None,
    {
        ImageBuilder {
            url: String::new(),
            title: String::new(),
            link: String::new(),
            width: None,
            height: None,
            description: None,
        }
    }

    /// Sets `url`, as given, and returns the builder.
    pub fn url(&mut self, url: &str) -> (r: &mut ImageBuilder)
        ensures
            *r == (ImageBuilder { url: r.url, ..*old(self) }),
            r.url@ == url@,
            *final(self) == *final(r),
    {
        self.url = url.to_owned();
        self
    }

    /// Sets `title`, as given, and returns the builder.
    pub fn title(&mut self, title: &str) -> (r: &mut ImageBuilder)
        ensures
            *r == (ImageBuilder { title: r.title, ..*old(self) }),
            r.title@ == title@,
            *final(self) == *final(r),
    {
        self.title = title.to_owned();
        self
    }

    /// Sets `link`, as given, and returns the builder.
    pub fn link(&mut self, link: &str) -> (r: &mut ImageBuilder)
        ensures
            *r == (ImageBuilder { link: r.link, ..*old(self) }),
            r.link@ == link@,
            *final(self) == *final(r),
    {
        self.link = link.to_owned();
        self
    }

    /// Sets `width`, as given, and returns the builder.
    pub fn width(&mut self, width: Option<i64>) -> (r: &mut ImageBuilder)
        ensures
            *r == (ImageBuilder { width, ..*old(self) }),
            *final(self) == *final(r),
    {
        self.width = width;
        self
    }

    /// Sets `height`, as given, and returns the builder.
    pub fn height(&mut self, height: Option<i64>) -> (r: &mut ImageBuilder)
        ensures
            *r == (ImageBuilder { height, ..*old(self) }),
            *final(self) == *final(r),
    {
        self.height = height;
        self
    }

    /// Sets `description`, as given, and returns the builder.
    pub fn description(&mut self, description: Option<String>) -> (r: &mut ImageBuilder)
        ensures
            *r == (ImageBuilder { description, ..*old(self) }),
            *final(self) == *final(r),
    {
        self.description = description;
        self
    }

    /// Checks that url and link parse as URLs and that width and height, when
    /// given, are neither negative nor above their limits, in that order.
    pub fn validate(&mut self) -> (r: Result<&mut ImageBuilder, String>)
        ensures
            match r {
                Ok(b) => image_error(*old(self)) is None && *b == *old(self) && *final(self)
                    == *final(b),
                Err(e) => image_error(*old(self)) == Some(e@) && *final(self) == *old(self),
            },
    {
        match str_to_url(self.url.as_str()) {
            Ok(_) => {},
            Err(e) => {
                return Err(with_field("Image url", e));
            },
        }
        match str_to_url(self.link.as_str()) {
            Ok(_) => {},
            Err(e) => {
                return Err(with_field("Image link", e));
            },
        }
        match check_size("Image width", self.width, MAX_WIDTH) {
            Ok(_) => {},
            Err(e) => {
                return Err(e);
            },
        }
        match check_size("Image height", self.height, MAX_HEIGHT) {
            Ok(_) => Ok(self),
            Err(e) => Err(e),
        }
    }

    /// Builds the image, with width and height written in decimal; fails only
    /// when one of them is negative, the width first.
    pub fn finalize(&self) -> (r: Result<Image, String>)
        ensures
            r is Ok <==> opt_not_negative(self.width) && opt_not_negative(self.height),
            r matches Ok(i) ==> image_of(*self, i),
            r matches Err(e) ==> if !opt_not_negative(self.width) {
                e@ == field_message("Image width"@, negative_value_message(self.width->0 as int))
            } else {
                e@ == field_message("Image height"@, negative_value_message(self.height->0 as int))
            },
    {
        let width = match opt_i64_to_string("Image width", self.width) {
            Ok(w) => w,
            Err(e) => {
                return Err(e);
            },
        };
        let height = match opt_i64_to_string("Image height", self.height) {
            Ok(h) => h,
            Err(e) => {
                return Err(e);
            },
        };
        Ok(
            Image {
                url: self.url.clone(),
                title: self.title.clone(),
                link: self.link.clone(),
                width,
                height,
                description: self.description.clone(),
            },
        )
    }
}

} // verus!
