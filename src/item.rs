//! An entry of a channel, and its builder.
use vstd::prelude::*;
use crate::category::Category;
use crate::enclosure::Enclosure;
use crate::guid::Guid;
use crate::itunes::ITunesItemExtension;
use crate::source::Source;
use crate::utils::{
    field_message, invalid_date_message, invalid_url_message, is_rfc2822_date, is_url,
    str_to_url, validate_date, with_field,
};

verus! {

/// An entry of a channel: a story, an episode or a post.
pub struct Item {
    pub title: Option<String>,
    pub link: Option<String>,
    pub description: Option<String>,
    pub author: Option<String>,
    pub categories: Vec<Category>,
    pub comments: Option<String>,
    pub enclosure: Option<Enclosure>,
    pub guid: Option<Guid>,
    pub pub_date: Option<String>,
    pub source: Option<Source>,
    pub itunes_ext: Option<ITunesItemExtension>,
}

/// Whether two items hold the same values, field by field.
pub open spec fn item_eq(a: Item, b: Item) -> bool {
    &&& a.title == b.title
    &&& a.link == b.link
    &&& a.description == b.description
    &&& a.author == b.author
    &&& a.categories@ == b.categories@
    &&& a.comments == b.comments
    &&& a.enclosure == b.enclosure
    &&& a.guid == b.guid
    &&& a.pub_date == b.pub_date
    &&& a.source == b.source
    &&& a.itunes_ext == b.itunes_ext
}

impl Clone for Item {
    fn clone(&self) -> (r: Self)
        ensures
            item_eq(r, *self),
    {
        let categories = self.categories.clone();
        assert(categories@ =~= self.categories@);
        Item {
            title: self.title.clone(),
            link: self.link.clone(),
            description: self.description.clone(),
            author: self.author.clone(),
            categories,
            comments: self.comments.clone(),
            enclosure: self.enclosure.clone(),
            guid: self.guid.clone(),
            pub_date: self.pub_date.clone(),
            source: self.source.clone(),
            itunes_ext: self.itunes_ext.clone(),
        }
    }
}

impl Item {
    /// The `title` field.
    pub fn title(&self) -> (r: Option<String>)
        ensures
            r == self.title,
    {
        self.title.clone()
    }

    /// The `link` field.
    pub fn link(&self) -> (r: Option<String>)
        ensures
            r == self.link,
    {
        self.link.clone()
    }

    /// The `description` field.
    pub fn description(&self) -> (r: Option<String>)
        ensures
            r == self.description,
    {
        self.description.clone()
    }

    /// The `author` field.
    pub fn author(&self) -> (r: Option<String>)
        ensures
            r == self.author,
    {
        self.author.clone()
    }

    /// The `categories` field.
    pub fn categories(&self) -> (r: Vec<Category>)
        ensures
            r@ == self.categories@,
    {
        let r = self.categories.clone();
        assert(r@ =~= self.categories@);
        r
    }

    /// The `comments` field.
    pub fn comments(&self) -> (r: Option<String>)
        ensures
            r == self.comments,
    {
        self.comments.clone()
    }

    /// The `enclosure` field.
    pub fn enclosure(&self) -> (r: Option<Enclosure>)
        ensures
            r == self.enclosure,
    {
        self.enclosure.clone()
    }

    /// The `guid` field.
    pub fn guid(&self) -> (r: Option<Guid>)
        ensures
            r == self.guid,
    {
        self.guid.clone()
    }

    /// The `pub_date` field.
    pub fn pub_date(&self) -> (r: Option<String>)
        ensures
            r == self.pub_date,
    {
        self.pub_date.clone()
    }

    /// The `source` field.
    pub fn source(&self) -> (r: Option<Source>)
        ensures
            r == self.source,
    {
        self.source.clone()
    }

    /// The `itunes_ext` field.
    pub fn itunes_ext(&self) -> (r: Option<ITunesItemExtension>)
        ensures
            r == self.itunes_ext,
    {
        self.itunes_ext.clone()
    }
}

/// Collects the fields of an [`Item`].
pub struct ItemBuilder {
    pub title: Option<String>,
    pub link: Option<String>,
    pub description: Option<String>,
    pub author: Option<String>,
    pub categories: Vec<Category>,
    pub comments: Option<String>,
    pub enclosure: Option<Enclosure>,
    pub guid: Option<Guid>,
    pub pub_date: Option<String>,
    pub source: Option<Source>,
    pub itunes_ext: Option<ITunesItemExtension>,
}

/// The message of an item with neither title nor description.
pub open spec fn item_untitled_message() -> Seq<char> {
    "Item: either title or description must be present"@
}

/// The message of an optional URL field that does not parse, if it does not.
pub open spec fn opt_url_error(field: Seq<char>, u: Option<String>) -> Option<Seq<char>> {
    match u {
        Some(s) => if is_url(s@) {
            None
        } else {
            Some(field_message(field, invalid_url_message(s@)))
        },
        None => None,
    }
}

/// The message of an optional date field that does not parse, if it does not.
pub open spec fn opt_date_error(field: Seq<char>, d: Option<String>) -> Option<Seq<char>> {
    match d {
        Some(s) => if is_rfc2822_date(s@) {
            None
        } else {
            Some(field_message(field, invalid_date_message(s@)))
        },
        None => None,
    }
}

/// The first constraint that the builder's fields break, as its message.
pub open spec fn item_error(b: ItemBuilder) -> Option<Seq<char>> {
    if b.title is None && b.description is None {
        Some(item_untitled_message())
    } else if opt_url_error("Item link"@, b.link) is Some {
        opt_url_error("Item link"@, b.link)
    } else if opt_url_error("Item comments"@, b.comments) is Some {
        opt_url_error("Item comments"@, b.comments)
    } else {
        opt_date_error("Item pub_date"@, b.pub_date)
    }
}

/// The item that a builder yields.
pub open spec fn item_of(b: ItemBuilder, i: Item) -> bool {
    &&& i.title == b.title
    &&& i.link == b.link
    &&& i.description == b.description
    &&& i.author == b.author
    &&& i.categories@ == b.categories@
    &&& i.comments == b.comments
    &&& i.enclosure == b.enclosure
    &&& i.guid == b.guid
    &&& i.pub_date == b.pub_date
    &&& i.source == b.source
    &&& i.itunes_ext == b.itunes_ext
}

/// Checks an optional URL field.
pub fn check_opt_url(field: &str, u: &Option<String>) -> (r: Result<(), String>)
    ensures
        match r {
            Ok(_) => opt_url_error(field@, *u) is None,
            Err(e) => opt_url_error(field@, *u) == Some(e@),
        },
{
    match u {
        Some(s) => match str_to_url(s.as_str()) {
            Ok(_) => Ok(()),
            Err(e) => Err(with_field(field, e)),
        },
        None => Ok(()),
    }
}

/// Checks an optional date field.
pub fn check_opt_date(field: &str, d: &Option<String>) -> (r: Result<(), String>)
    ensures
        match r {
            Ok(_) => opt_date_error(field@, *d) is None,
            Err(e) => opt_date_error(field@, *d) == Some(e@),
        },
{
    match d {
        Some(s) => match validate_date(s.as_str()) {
            Ok(_) => Ok(()),
            Err(e) => Err(with_field(field, e)),
        },
        None => Ok(()),
    }
}

impl Default for ItemBuilder {
    /// The same builder as `new` makes.
    fn default() -> (r: ItemBuilder)
        ensures
            r.title is None,
            r.link is None,
            r.description is None,
            r.author is None,
            r.categories@ == Seq::<Category>::empty(),
            r.comments is None,
            r.enclosure is None,
            r.guid is None,
            r.pub_date is None,
            r.source is None,
            r.itunes_ext is None,
    {
        ItemBuilder::new()
    }
}

impl ItemBuilder {
    /// A builder with every field absent and no categories.
    pub fn new() -> (r: ItemBuilder)
        ensures
            r.title is None,
            r.link is None,
            r.description is None,
            r.author is None,
            r.categories@ == Seq::<Category>::empty(),
            r.comments is None,
            r.enclosure is None,
            r.guid is None,
            r.pub_date is None,
            r.source is None,
            r.itunes_ext is None,
    {
        ItemBuilder {
            title: None,
            link: None,
            description: None,
            author: None,
            categories: Vec::new(),
            comments: None,
            enclosure: None,
            guid: None,
            pub_date: None,
            source: None,
            itunes_ext: None,
        }
    }

    /// Sets `title`, as given, and returns the builder.
    pub fn title(&mut self, title: Option<String>) -> (r: &mut ItemBuilder)
        ensures
            *r == (ItemBuilder { title, ..*old(self) }),
            *final(self) == *final(r),
    {
        self.title = title;
        self
    }

    /// Sets `link`, as given, and returns the builder.
    pub fn link(&mut self, link: Option<String>) -> (r: &mut ItemBuilder)
        ensures
            *r == (ItemBuilder { link, ..*old(self) }),
            *final(self) == *final(r),
    {
        self.link = link;
        self
    }

    /// Sets `description`, as given, and returns the builder.
    pub fn description(&mut self, description: Option<String>) -> (r: &mut ItemBuilder)
        ensures
            *r == (ItemBuilder { description, ..*old(self) }),
            *final(self) == *final(r),
    {
        self.description = description;
        self
    }

    /// Sets `author`, as given, and returns the builder.
    pub fn author(&mut self, author: Option<String>) -> (r: &mut ItemBuilder)
        ensures
            *r == (ItemBuilder { author, ..*old(self) }),
            *final(self) == *final(r),
    {
        self.author = author;
        self
    }

    /// Sets `categories`, as given, and returns the builder.
    pub fn categories(&mut self, categories: Vec<Category>) -> (r: &mut ItemBuilder)
        ensures
            *r == (ItemBuilder { categories, ..*old(self) }),
            *final(self) == *final(r),
    {
        self.categories = categories;
        self
    }

    /// Sets `comments`, as given, and returns the builder.
    pub fn comments(&mut self, comments: Option<String>) -> (r: &mut ItemBuilder)
        ensures
            *r == (ItemBuilder { comments, ..*old(self) }),
            *final(self) == *final(r),
    {
        self.comments = comments;
        self
    }

    /// Sets `enclosure`, as given, and returns the builder.
    pub fn enclosure(&mut self, enclosure: Option<Enclosure>) -> (r: &mut ItemBuilder)
        ensures
            *r == (ItemBuilder { enclosure, ..*old(self) }),
            *final(self) == *final(r),
    {
        self.enclosure = enclosure;
        self
    }

    /// Sets `guid`, as given, and returns the builder.
    pub fn guid(&mut self, guid: Option<Guid>) -> (r: &mut ItemBuilder)
        ensures
            *r == (ItemBuilder { guid, ..*old(self) }),
            *final(self) == *final(r),
    {
        self.guid = guid;
        self
    }

    /// Sets `pub_date`, as given, and returns the builder.
    pub fn pub_date(&mut self, pub_date: Option<String>) -> (r: &mut ItemBuilder)
        ensures
            *r == (ItemBuilder { pub_date, ..*old(self) }),
            *final(self) == *final(r),
    {
        self.pub_date = pub_date;
        self
    }

    /// Sets `source`, as given, and returns the builder.
    pub fn source(&mut self, source: Option<Source>) -> (r: &mut ItemBuilder)
        ensures
            *r == (ItemBuilder { source, ..*old(self) }),
            *final(self) == *final(r),
    {
        self.source = source;
        self
    }

    /// Sets `itunes_ext`, as given, and returns the builder.
    pub fn itunes_ext(&mut self, itunes_ext: Option<ITunesItemExtension>) -> (r: &mut ItemBuilder)
        ensures
            *r == (ItemBuilder { itunes_ext, ..*old(self) }),
            *final(self) == *final(r),
    {
        self.itunes_ext = itunes_ext;
        self
    }

    /// Checks that the item has a title or a description, that link and
    /// comments parse as URLs and that the publication date parses, in that
    /// order; only fields that are present are checked.
    pub fn validate(&mut self) -> (r: Result<&mut ItemBuilder, String>)
        ensures
            match r {
                Ok(b) => item_error(*old(self)) is None && *b == *old(self) && *final(self)
                    == *final(b),
                Err(e) => item_error(*old(self)) == Some(e@) && *final(self) == *old(self),
            },
    {
        if self.title.is_none() && self.description.is_none() {
            return Err("Item: either title or description must be present".to_owned());
        }
        match check_opt_url("Item link", &self.link) {
            Ok(_) => {},
            Err(e) => {
                return Err(e);
            },
        }
        match check_opt_url("Item comments", &self.comments) {
            Ok(_) => {},
            Err(e) => {
                return Err(e);
            },
        }
        match check_opt_date("Item pub_date", &self.pub_date) {
            Ok(_) => Ok(self),
            Err(e) => Err(e),
        }
    }

    /// Builds the item from the fields as they stand; this never fails and
    /// checks nothing.
    pub fn finalize(&self) -> (r: Result<Item, String>)
        ensures
            r matches Ok(i) && item_of(*self, i),
    {
        let categories = self.categories.clone();
        assert(categories@ =~= self.categories@);
        Ok(
            Item {
                title: self.title.clone(),
                link: self.link.clone(),
                description: self.description.clone(),
                author: self.author.clone(),
                categories,
                comments: self.comments.clone(),
                enclosure: self.enclosure.clone(),
                guid: self.guid.clone(),
                pub_date: self.pub_date.clone(),
                source: self.source.clone(),
                itunes_ext: self.itunes_ext.clone(),
            },
        )
    }
}

} // verus!
