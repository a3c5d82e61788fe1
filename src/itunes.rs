//! The iTunes extensions of channels and items, and their builders.
use vstd::prelude::*;
use crate::utils::{empty_field_error, empty_field_message, field_message, with_field};

verus! {

/// The owner of a podcast.
pub struct ITunesOwner {
    pub name: Option<String>,
    pub email: Option<String>,
}

impl Clone for ITunesOwner {
    fn clone(&self) -> (r: Self)
        ensures
            r == *self,
    {
        ITunesOwner {
            name: self.name.clone(),
            email: self.email.clone(),
        }
    }
}

impl ITunesOwner {
    /// The `name` field.
    pub fn name(&self) -> (r: Option<String>)
        ensures
            r == self.name,
    {
        self.name.clone()
    }

    /// The `email` field.
    pub fn email(&self) -> (r: Option<String>)
        ensures
            r == self.email,
    {
        self.email.clone()
    }
}

/// Collects the fields of an [`ITunesOwner`].
pub struct ITunesOwnerBuilder {
    pub name: Option<String>,
    pub email: Option<String>,
}

/// The owner that a builder yields.
pub open spec fn itunes_owner_of(b: ITunesOwnerBuilder, o: ITunesOwner) -> bool {
    o.name == b.name && o.email == b.email
}

impl Default for ITunesOwnerBuilder {
    /// The same builder as `new` makes.
    fn default() -> (r: ITunesOwnerBuilder)
        ensures
            r.name is None,
            r.email is None,
    {
        ITunesOwnerBuilder::new()
    }
}

impl ITunesOwnerBuilder {
    /// A builder with every field absent.
    pub fn new() -> (r: ITunesOwnerBuilder)
        ensures
            r.name is None,
            r.email is None,
    {
        ITunesOwnerBuilder {
            name: None,
            email: None,
        }
    }

    /// Sets `name`, as given, and returns the builder.
    pub fn name(&mut self, name: Option<String>) -> (r: &mut ITunesOwnerBuilder)
        ensures
            *r == (ITunesOwnerBuilder { name, ..*old(self) }),
            *final(self) == *final(r),
    {
        self.name = name;
        self
    }

    /// Sets `email`, as given, and returns the builder.
    pub fn email(&mut self, email: Option<String>) -> (r: &mut ITunesOwnerBuilder)
        ensures
            *r == (ITunesOwnerBuilder { email, ..*old(self) }),
            *final(self) == *final(r),
    {
        self.email = email;
        self
    }

    /// An owner has no constraint: this always succeeds and leaves the
    /// builder as it was.
    pub fn validate(&mut self) -> (r: Result<&mut ITunesOwnerBuilder, String>)
        ensures
            r matches Ok(b) && *b == *old(self) && *final(self) == *final(b),
    {
        Ok(self)
    }

    /// Builds the owner; this never fails.
    pub fn finalize(&self) -> (r: Result<ITunesOwner, String>)
        ensures
            r matches Ok(o) && itunes_owner_of(*self, o),
    {
        Ok(ITunesOwner { name: self.name.clone(), email: self.email.clone() })
    }
}

/// A podcast category, which may hold one subcategory.
pub struct ITunesCategory {
    pub text: String,
    pub subcategory: Option<Box<ITunesCategory>>,
}

impl Clone for ITunesCategory {
    fn clone(&self) -> (r: Self)
        ensures
            r == *self,
        decreases self,
    {
        let subcategory = match &self.subcategory {
            Some(sub) => Some(Box::new((**sub).clone())),
            None => None,
        };
        ITunesCategory { text: self.text.clone(), subcategory }
    }
}

impl ITunesCategory {
    /// The `text` field.
    pub fn text(&self) -> (r: String)
        ensures
            r == self.text,
    {
        self.text.clone()
    }

    /// The `subcategory` field.
    pub fn subcategory(&self) -> (r: Option<Box<ITunesCategory>>)
        ensures
            r == self.subcategory,
    {
        self.subcategory.clone()
    }
}

/// Collects the fields of an [`ITunesCategory`].
pub struct ITunesCategoryBuilder {
    pub text: String,
    pub subcategory: Option<Box<ITunesCategory>>,
}

/// The first constraint that the builder's fields break, as its message.
pub open spec fn itunes_category_error(b: ITunesCategoryBuilder) -> Option<Seq<char>> {
    if b.text@.len() == 0 {
        Some(field_message("ITunesCategory text"@, empty_field_message()))
    } else {
        None
    }
}

/// The category that a builder yields.
pub open spec fn itunes_category_of(b: ITunesCategoryBuilder, c: ITunesCategory) -> bool {
    c.text == b.text && c.subcategory == b.subcategory
}

impl Default for ITunesCategoryBuilder {
    /// The same builder as `new` makes.
    fn default() -> (r: ITunesCategoryBuilder)
        ensures
            r.text@ == Seq::<char>::empty(),
            r.subcategory is None,
    {
        ITunesCategoryBuilder::new()
    }
}

impl ITunesCategoryBuilder {
    /// A builder with empty text and no subcategory.
    pub fn new() -> (r: ITunesCategoryBuilder)
        ensures
            r.text@ == Seq::<char>::empty(),
            r.subcategory is None,
    {
        ITunesCategoryBuilder {
            text: String::new(),
            subcategory: None,
        }
    }

    /// Sets `text`, as given, and returns the builder.
    pub fn text(&mut self, text: &str) -> (r: &mut ITunesCategoryBuilder)
        ensures
            *r == (ITunesCategoryBuilder { text: r.text, ..*old(self) }),
            r.text@ == text@,
            *final(self) == *final(r),
    {
        self.text = text.to_owned();
        self
    }

    /// Sets `subcategory`, as given, and returns the builder.
    pub fn subcategory(
        &mut self,
        subcategory: Option<Box<ITunesCategory>>,
    ) -> (r: &mut ITunesCategoryBuilder)
        ensures
            *r == (ITunesCategoryBuilder { subcategory, ..*old(self) }),
            *final(self) == *final(r),
    {
        self.subcategory = subcategory;
        self
    }

    /// Checks that the text is not empty.
    pub fn validate(&mut self) -> (r: Result<&mut ITunesCategoryBuilder, String>)
        ensures
            match r {
                Ok(b) => itunes_category_error(*old(self)) is None && *b == *old(self)
                    && *final(self) == *final(b),
                Err(e) => itunes_category_error(*old(self)) == Some(e@) && *final(self)
                    == *old(self),
            },
    {
        if self.text.as_str().is_empty() {
            return Err(with_field("ITunesCategory text", empty_field_error()));
        }
        Ok(self)
    }

    /// Builds the category; this never fails.
    pub fn finalize(&self) -> (r: Result<ITunesCategory, String>)
        ensures
            r matches Ok(c) && itunes_category_of(*self, c),
    {
        Ok(ITunesCategory { text: self.text.clone(), subcategory: self.subcategory.clone() })
    }
}

/// The iTunes fields of a channel.
pub struct ITunesChannelExtension {
    pub author: Option<String>,
    pub block: Option<String>,
    pub categories: Vec<ITunesCategory>,
    pub image: Option<String>,
    pub explicit: Option<String>,
    pub complete: Option<String>,
    pub new_feed_url: Option<String>,
    pub owner: Option<ITunesOwner>,
    pub subtitle: Option<String>,
    pub summary: Option<String>,
    pub keywords: Option<String>,
}

/// Whether two channel extensions hold the same values, field by field.
pub open spec fn itunes_channel_ext_eq(
    a: ITunesChannelExtension,
    b: ITunesChannelExtension,
) -> bool {
    &&& a.author == b.author
    &&& a.block == b.block
    &&& a.categories@ == b.categories@
    &&& a.image == b.image
    &&& a.explicit == b.explicit
    &&& a.complete == b.complete
    &&& a.new_feed_url == b.new_feed_url
    &&& a.owner == b.owner
    &&& a.subtitle == b.subtitle
    &&& a.summary == b.summary
    &&& a.keywords == b.keywords
}

impl Clone for ITunesChannelExtension {
    fn clone(&self) -> (r: Self)
        ensures
            itunes_channel_ext_eq(r, *self),
    {
        let categories = self.categories.clone();
        assert(categories@ =~= self.categories@);
        ITunesChannelExtension {
            author: self.author.clone(),
            block: self.block.clone(),
            categories,
            image: self.image.clone(),
            explicit: self.explicit.clone(),
            complete: self.complete.clone(),
            new_feed_url: self.new_feed_url.clone(),
            owner: self.owner.clone(),
            subtitle: self.subtitle.clone(),
            summary: self.summary.clone(),
            keywords: self.keywords.clone(),
        }
    }
}

impl ITunesChannelExtension {
    /// The `author` field.
    pub fn author(&self) -> (r: Option<String>)
        ensures
            r == self.author,
    {
        self.author.clone()
    }

    /// The `block` field.
    pub fn block(&self) -> (r: Option<String>)
        ensures
            r == self.block,
    {
        self.block.clone()
    }

    /// The `categories` field.
    pub fn categories(&self) -> (r: Vec<ITunesCategory>)
        ensures
            r@ == self.categories@,
    {
        let r = self.categories.clone();
        assert(r@ =~= self.categories@);
        r
    }

    /// The `image` field.
    pub fn image(&self) -> (r: Option<String>)
        ensures
            r == self.image,
    {
        self.image.clone()
    }

    /// The `explicit` field.
    pub fn explicit(&self) -> (r: Option<String>)
        ensures
            r == self.explicit,
    {
        self.explicit.clone()
    }

    /// The `complete` field.
    pub fn complete(&self) -> (r: Option<String>)
        ensures
            r == self.complete,
    {
        self.complete.clone()
    }

    /// The `new_feed_url` field.
    pub fn new_feed_url(&self) -> (r: Option<String>)
        ensures
            r == self.new_feed_url,
    {
        self.new_feed_url.clone()
    }

    /// The `owner` field.
    pub fn owner(&self) -> (r: Option<ITunesOwner>)
        ensures
            r == self.owner,
    {
        self.owner.clone()
    }

    /// The `subtitle` field.
    pub fn subtitle(&self) -> (r: Option<String>)
        ensures
            r == self.subtitle,
    {
        self.subtitle.clone()
    }

    /// The `summary` field.
    pub fn summary(&self) -> (r: Option<String>)
        ensures
            r == self.summary,
    {
        self.summary.clone()
    }

    /// The `keywords` field.
    pub fn keywords(&self) -> (r: Option<String>)
        ensures
            r == self.keywords,
    {
        self.keywords.clone()
    }
}

/// Collects the fields of an [`ITunesChannelExtension`].
pub struct ITunesChannelExtensionBuilder {
    pub author: Option<String>,
    pub block: Option<String>,
    pub categories: Vec<ITunesCategory>,
    pub image: Option<String>,
    pub explicit: Option<String>,
    pub complete: Option<String>,
    pub new_feed_url: Option<String>,
    pub owner: Option<ITunesOwner>,
    pub subtitle: Option<String>,
    pub summary: Option<String>,
    pub keywords: Option<String>,
}

/// The extension that a builder yields.
pub open spec fn itunes_channel_of(
    b: ITunesChannelExtensionBuilder,
    e: ITunesChannelExtension,
) -> bool {
    &&& e.author == b.author
    &&& e.block == b.block
    &&& e.categories@ == b.categories@
    &&& e.image == b.image
    &&& e.explicit == b.explicit
    &&& e.complete == b.complete
    &&& e.new_feed_url == b.new_feed_url
    &&& e.owner == b.owner
    &&& e.subtitle == b.subtitle
    &&& e.summary == b.summary
    &&& e.keywords == b.keywords
}

impl Default for ITunesChannelExtensionBuilder {
    /// The same builder as `new` makes.
    fn default() -> (r: ITunesChannelExtensionBuilder)
        ensures
            r.author is None,
            r.block is None,
            r.categories@ == Seq::<ITunesCategory>::empty(),
            r.image is None,
            r.explicit is None,
            r.complete is None,
            r.new_feed_url is None,
            r.owner is None,
            r.subtitle is None,
            r.summary is None,
            r.keywords is None,
    {
        ITunesChannelExtensionBuilder::new()
    }
}

impl ITunesChannelExtensionBuilder {
    /// A builder with every field absent or empty.
    pub fn new() -> (r: ITunesChannelExtensionBuilder)
        ensures
            r.author is None,
            r.block is None,
            r.categories@ == Seq::<ITunesCategory>::empty(),
            r.image is None,
            r.explicit is None,
            r.complete is None,
            r.new_feed_url is None,
            r.owner is None,
            r.subtitle is None,
            r.summary is None,
            r.keywords is None,
    {
        ITunesChannelExtensionBuilder {
            author: None,
            block: None,
            categories: Vec::new(),
            image: None,
            explicit: None,
            complete: None,
            new_feed_url: None,
            owner: None,
            subtitle: None,
            summary: None,
            keywords: None,
        }
    }

    /// Sets `author`, as given, and returns the builder.
    pub fn author(&mut self, author: Option<String>) -> (r: &mut ITunesChannelExtensionBuilder)
        ensures
            *r == (ITunesChannelExtensionBuilder { author, ..*old(self) }),
            *final(self) == *final(r),
    {
        self.author = author;
        self
    }

    /// Sets `block`, as given, and returns the builder.
    pub fn block(&mut self, block: Option<String>) -> (r: &mut ITunesChannelExtensionBuilder)
        ensures
            *r == (ITunesChannelExtensionBuilder { block, ..*old(self) }),
            *final(self) == *final(r),
    {
        self.block = block;
        self
    }

    /// Sets `categories`, as given, and returns the builder.
    pub fn categories(
        &mut self,
        categories: Vec<ITunesCategory>,
    ) -> (r: &mut ITunesChannelExtensionBuilder)
        ensures
            *r == (ITunesChannelExtensionBuilder { categories, ..*old(self) }),
            *final(self) == *final(r),
    {
        self.categories = categories;
        self
    }

    /// Sets `image`, as given, and returns the builder.
    pub fn image(&mut self, image: Option<String>) -> (r: &mut ITunesChannelExtensionBuilder)
        ensures
            *r == (ITunesChannelExtensionBuilder { image, ..*old(self) }),
            *final(self) == *final(r),
    {
        self.image = image;
        self
    }

    /// Sets `explicit`, as given, and returns the builder.
    pub fn explicit(&mut self, explicit: Option<String>) -> (r: &mut ITunesChannelExtensionBuilder)
        ensures
            *r == (ITunesChannelExtensionBuilder { explicit, ..*old(self) }),
            *final(self) == *final(r),
    {
        self.explicit = explicit;
        self
    }

    /// Sets `complete`, as given, and returns the builder.
    pub fn complete(&mut self, complete: Option<String>) -> (r: &mut ITunesChannelExtensionBuilder)
        ensures
            *r == (ITunesChannelExtensionBuilder { complete, ..*old(self) }),
            *final(self) == *final(r),
    {
        self.complete = complete;
        self
    }

    /// Sets `new_feed_url`, as given, and returns the builder.
    pub fn new_feed_url(
        &mut self,
        new_feed_url: Option<String>,
    ) -> (r: &mut ITunesChannelExtensionBuilder)
        ensures
            *r == (ITunesChannelExtensionBuilder { new_feed_url, ..*old(self) }),
            *final(self) == *final(r),
    {
        self.new_feed_url = new_feed_url;
        self
    }

    /// Sets `owner`, as given, and returns the builder.
    pub fn owner(&mut self, owner: Option<ITunesOwner>) -> (r: &mut ITunesChannelExtensionBuilder)
        ensures
            *r == (ITunesChannelExtensionBuilder { owner, ..*old(self) }),
            *final(self) == *final(r),
    {
        self.owner = owner;
        self
    }

    /// Sets `subtitle`, as given, and returns the builder.
    pub fn subtitle(&mut self, subtitle: Option<String>) -> (r: &mut ITunesChannelExtensionBuilder)
        ensures
            *r == (ITunesChannelExtensionBuilder { subtitle, ..*old(self) }),
            *final(self) == *final(r),
    {
        self.subtitle = subtitle;
        self
    }

    /// Sets `summary`, as given, and returns the builder.
    pub fn summary(&mut self, summary: Option<String>) -> (r: &mut ITunesChannelExtensionBuilder)
        ensures
            *r == (ITunesChannelExtensionBuilder { summary, ..*old(self) }),
            *final(self) == *final(r),
    {
        self.summary = summary;
        self
    }

    /// Sets `keywords`, as given, and returns the builder.
    pub fn keywords(&mut self, keywords: Option<String>) -> (r: &mut ITunesChannelExtensionBuilder)
        ensures
            *r == (ITunesChannelExtensionBuilder { keywords, ..*old(self) }),
            *final(self) == *final(r),
    {
        self.keywords = keywords;
        self
    }

    /// The extension has no constraint of its own: this always succeeds and
    /// leaves the builder as it was.
    pub fn validate(&mut self) -> (r: Result<&mut ITunesChannelExtensionBuilder, String>)
        ensures
            r matches Ok(b) && *b == *old(self) && *final(self) == *final(b),
    {
        Ok(self)
    }

    /// Builds the extension; this never fails.
    pub fn finalize(&self) -> (r: Result<ITunesChannelExtension, String>)
        ensures
            r matches Ok(e) && itunes_channel_of(*self, e),
    {
        let categories = self.categories.clone();
        assert(categories@ =~= self.categories@);
        Ok(
            ITunesChannelExtension {
                author: self.author.clone(),
                block: self.block.clone(),
                categories,
                image: self.image.clone(),
                explicit: self.explicit.clone(),
                complete: self.complete.clone(),
                new_feed_url: self.new_feed_url.clone(),
                owner: self.owner.clone(),
                subtitle: self.subtitle.clone(),
                summary: self.summary.clone(),
                keywords: self.keywords.clone(),
            },
        )
    }
}

/// The iTunes fields of an item.
pub struct ITunesItemExtension {
    pub author: Option<String>,
    pub block: Option<String>,
    pub image: Option<String>,
    pub duration: Option<String>,
    pub explicit: Option<String>,
    pub closed_captioned: Option<String>,
    pub order: Option<String>,
    pub subtitle: Option<String>,
    pub summary: Option<String>,
    pub keywords: Option<String>,
}

impl Clone for ITunesItemExtension {
    fn clone(&self) -> (r: Self)
        ensures
            r == *self,
    {
        ITunesItemExtension {
            author: self.author.clone(),
            block: self.block.clone(),
            image: self.image.clone(),
            duration: self.duration.clone(),
            explicit: self.explicit.clone(),
            closed_captioned: self.closed_captioned.clone(),
            order: self.order.clone(),
            subtitle: self.subtitle.clone(),
            summary: self.summary.clone(),
            keywords: self.keywords.clone(),
        }
    }
}

impl ITunesItemExtension {
    /// The `author` field.
    pub fn author(&self) -> (r: Option<String>)
        ensures
            r == self.author,
    {
        self.author.clone()
    }

    /// The `block` field.
    pub fn block(&self) -> (r: Option<String>)
        ensures
            r == self.block,
    {
        self.block.clone()
    }

    /// The `image` field.
    pub fn image(&self) -> (r: Option<String>)
        ensures
            r == self.image,
    {
        self.image.clone()
    }

    /// The `duration` field.
    pub fn duration(&self) -> (r: Option<String>)
        ensures
            r == self.duration,
    {
        self.duration.clone()
    }

    /// The `explicit` field.
    pub fn explicit(&self) -> (r: Option<String>)
        ensures
            r == self.explicit,
    {
        self.explicit.clone()
    }

    /// The `closed_captioned` field.
    pub fn closed_captioned(&self) -> (r: Option<String>)
        ensures
            r == self.closed_captioned,
    {
        self.closed_captioned.clone()
    }

    /// The `order` field.
    pub fn order(&self) -> (r: Option<String>)
        ensures
            r == self.order,
    {
        self.order.clone()
    }

    /// The `subtitle` field.
    pub fn subtitle(&self) -> (r: Option<String>)
        ensures
            r == self.subtitle,
    {
        self.subtitle.clone()
    }

    /// The `summary` field.
    pub fn summary(&self) -> (r: Option<String>)
        ensures
            r == self.summary,
    {
        self.summary.clone()
    }

    /// The `keywords` field.
    pub fn keywords(&self) -> (r: Option<String>)
        ensures
            r == self.keywords,
    {
        self.keywords.clone()
    }
}

/// Collects the fields of an [`ITunesItemExtension`].
pub struct ITunesItemExtensionBuilder {
    pub author: Option<String>,
    pub block: Option<String>,
    pub image: Option<String>,
    pub duration: Option<String>,
    pub explicit: Option<String>,
    pub closed_captioned: Option<String>,
    pub order: Option<String>,
    pub subtitle: Option<String>,
    pub summary: Option<String>,
    pub keywords: Option<String>,
}

/// The extension that a builder yields.
pub open spec fn itunes_item_of(b: ITunesItemExtensionBuilder, e: ITunesItemExtension) -> bool {
    &&& e.author == b.author
    &&& e.block == b.block
    &&& e.image == b.image
    &&& e.duration == b.duration
    &&& e.explicit == b.explicit
    &&& e.closed_captioned == b.closed_captioned
    &&& e.order == b.order
    &&& e.subtitle == b.subtitle
    &&& e.summary == b.summary
    &&& e.keywords == b.keywords
}

impl Default for ITunesItemExtensionBuilder {
    /// The same builder as `new` makes.
    fn default() -> (r: ITunesItemExtensionBuilder)
        ensures
            r.author is None,
            r.block is None,
            r.image is None,
            r.duration is None,
            r.explicit is None,
            r.closed_captioned is None,
            r.order is None,
            r.subtitle is None,
            r.summary is None,
            r.keywords is None,
    {
        ITunesItemExtensionBuilder::new()
    }
}

impl ITunesItemExtensionBuilder {
    /// A builder with every field absent or empty.
    pub fn new() -> (r: ITunesItemExtensionBuilder)
        ensures
            r.author is None,
            r.block is None,
            r.image is None,
            r.duration is None,
            r.explicit is None,
            r.closed_captioned is None,
            r.order is None,
            r.subtitle is None,
            r.summary is None,
            r.keywords is None,
    {
        ITunesItemExtensionBuilder {
            author: None,
            block: None,
            image: None,
            duration: None,
            explicit: None,
            closed_captioned: None,
            order: None,
            subtitle: None,
            summary: None,
            keywords: None,
        }
    }

    /// Sets `author`, as given, and returns the builder.
    pub fn author(&mut self, author: Option<String>) -> (r: &mut ITunesItemExtensionBuilder)
        ensures
            *r == (ITunesItemExtensionBuilder { author, ..*old(self) }),
            *final(self) == *final(r),
    {
        self.author = author;
        self
    }

    /// Sets `block`, as given, and returns the builder.
    pub fn block(&mut self, block: Option<String>) -> (r: &mut ITunesItemExtensionBuilder)
        ensures
            *r == (ITunesItemExtensionBuilder { block, ..*old(self) }),
            *final(self) == *final(r),
    {
        self.block = block;
        self
    }

    /// Sets `image`, as given, and returns the builder.
    pub fn image(&mut self, image: Option<String>) -> (r: &mut ITunesItemExtensionBuilder)
        ensures
            *r == (ITunesItemExtensionBuilder { image, ..*old(self) }),
            *final(self) == *final(r),
    {
        self.image = image;
        self
    }

    /// Sets `duration`, as given, and returns the builder.
    pub fn duration(&mut self, duration: Option<String>) -> (r: &mut ITunesItemExtensionBuilder)
        ensures
            *r == (ITunesItemExtensionBuilder { duration, ..*old(self) }),
            *final(self) == *final(r),
    {
        self.duration = duration;
        self
    }

    /// Sets `explicit`, as given, and returns the builder.
    pub fn explicit(&mut self, explicit: Option<String>) -> (r: &mut ITunesItemExtensionBuilder)
        ensures
            *r == (ITunesItemExtensionBuilder { explicit, ..*old(self) }),
            *final(self) == *final(r),
    {
        self.explicit = explicit;
        self
    }

    /// Sets `closed_captioned`, as given, and returns the builder.
    pub fn closed_captioned(
        &mut self,
        closed_captioned: Option<String>,
    ) -> (r: &mut ITunesItemExtensionBuilder)
        ensures
            *r == (ITunesItemExtensionBuilder { closed_captioned, ..*old(self) }),
            *final(self) == *final(r),
    {
        self.closed_captioned = closed_captioned;
        self
    }

    /// Sets `order`, as given, and returns the builder.
    pub fn order(&mut self, order: Option<String>) -> (r: &mut ITunesItemExtensionBuilder)
        ensures
            *r == (ITunesItemExtensionBuilder { order, ..*old(self) }),
            *final(self) == *final(r),
    {
        self.order = order;
        self
    }

    /// Sets `subtitle`, as given, and returns the builder.
    pub fn subtitle(&mut self, subtitle: Option<String>) -> (r: &mut ITunesItemExtensionBuilder)
        ensures
            *r == (ITunesItemExtensionBuilder { subtitle, ..*old(self) }),
            *final(self) == *final(r),
    {
        self.subtitle = subtitle;
        self
    }

    /// Sets `summary`, as given, and returns the builder.
    pub fn summary(&mut self, summary: Option<String>) -> (r: &mut ITunesItemExtensionBuilder)
        ensures
            *r == (ITunesItemExtensionBuilder { summary, ..*old(self) }),
            *final(self) == *final(r),
    {
        self.summary = summary;
        self
    }

    /// Sets `keywords`, as given, and returns the builder.
    pub fn keywords(&mut self, keywords: Option<String>) -> (r: &mut ITunesItemExtensionBuilder)
        ensures
            *r == (ITunesItemExtensionBuilder { keywords, ..*old(self) }),
            *final(self) == *final(r),
    {
        self.keywords = keywords;
        self
    }

    /// The extension has no constraint of its own: this always succeeds and
    /// leaves the builder as it was.
    pub fn validate(&mut self) -> (r: Result<&mut ITunesItemExtensionBuilder, String>)
        ensures
            r matches Ok(b) && *b == *old(self) && *final(self) == *final(b),
    {
        Ok(self)
    }

    /// Builds the extension; this never fails.
    pub fn finalize(&self) -> (r: Result<ITunesItemExtension, String>)
        ensures
            r matches Ok(e) && itunes_item_of(*self, e),
    {
        Ok(
            ITunesItemExtension {
                author: self.author.clone(),
                block: self.block.clone(),
                image: self.image.clone(),
                duration: self.duration.clone(),
                explicit: self.explicit.clone(),
                closed_captioned: self.closed_captioned.clone(),
                order: self.order.clone(),
                subtitle: self.subtitle.clone(),
                summary: self.summary.clone(),
                keywords: self.keywords.clone(),
            },
        )
    }
}

} // verus!
