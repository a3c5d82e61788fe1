//! The top-level element of a feed, and its builder.
use vstd::prelude::*;
use crate::category::Category;
use crate::cloud::Cloud;
use crate::image::Image;
use crate::item::{check_opt_date, item_eq, opt_date_error, Item};
use crate::itunes::{itunes_channel_ext_eq, ITunesChannelExtension};
use crate::text_input::TextInput;
use crate::utils::{
    decimal, empty_field_error, empty_field_message, field_message, i64_to_string,
    invalid_url_message, is_url, negative_value_message, opt_decimal_of, opt_i64_to_string,
    opt_not_negative, opt_text_eq, signed_decimal, signed_to_string, str_to_url, texts_eq,
    with_field,
};

verus! {

/// A channel: the feed itself, its metadata and its items.
pub struct Channel {
    pub title: String,
    pub link: String,
    pub description: String,
    pub language: Option<String>,
    pub copyright: Option<String>,
    pub managing_editor: Option<String>,
    pub webmaster: Option<String>,
    pub pub_date: Option<String>,
    pub last_build_date: Option<String>,
    pub categories: Vec<Category>,
    pub generator: Option<String>,
    pub docs: Option<String>,
    pub cloud: Option<Cloud>,
    pub ttl: Option<String>,
    pub image: Option<Image>,
    pub text_input: Option<TextInput>,
    pub skip_hours: Vec<String>,
    pub skip_days: Vec<String>,
    pub items: Vec<Item>,
    pub itunes_ext: Option<ITunesChannelExtension>,
}

/// Whether two lists of items hold the same items, position by position.
pub open spec fn items_eq(a: Seq<Item>, b: Seq<Item>) -> bool {
    &&& a.len() == b.len()
    &&& forall|i: int| 0 <= i < a.len() ==> #[trigger] item_eq(a[i], b[i])
}

/// Whether two optional channel extensions are both absent or hold the same
/// values.
pub open spec fn opt_itunes_ext_eq(
    a: Option<ITunesChannelExtension>,
    b: Option<ITunesChannelExtension>,
) -> bool {
    match (a, b) {
        (None, None) => true,
        (Some(x), Some(y)) => itunes_channel_ext_eq(x, y),
        _ => false,
    }
}

/// Whether two channels hold the same values, field by field.
pub open spec fn channel_eq(a: Channel, b: Channel) -> bool {
    &&& a.title == b.title
    &&& a.link == b.link
    &&& a.description == b.description
    &&& a.language == b.language
    &&& a.copyright == b.copyright
    &&& a.managing_editor == b.managing_editor
    &&& a.webmaster == b.webmaster
    &&& a.pub_date == b.pub_date
    &&& a.last_build_date == b.last_build_date
    &&& a.categories@ == b.categories@
    &&& a.generator == b.generator
    &&& a.docs == b.docs
    &&& a.cloud == b.cloud
    &&& opt_text_eq(a.ttl, b.ttl)
    &&& a.image == b.image
    &&& a.text_input == b.text_input
    &&& texts_eq(a.skip_hours@, b.skip_hours@)
    &&& a.skip_days@ == b.skip_days@
    &&& items_eq(a.items@, b.items@)
    &&& opt_itunes_ext_eq(a.itunes_ext, b.itunes_ext)
}

impl Clone for Channel {
    fn clone(&self) -> (r: Self)
        ensures
            channel_eq(r, *self),
    {
        let categories = self.categories.clone();
        assert(categories@ =~= self.categories@);
        let skip_hours = self.skip_hours.clone();
        assert(skip_hours@ =~= self.skip_hours@);
        let skip_days = self.skip_days.clone();
        assert(skip_days@ =~= self.skip_days@);
        let items = self.items.clone();
        Channel {
            title: self.title.clone(),
            link: self.link.clone(),
            description: self.description.clone(),
            language: self.language.clone(),
            copyright: self.copyright.clone(),
            managing_editor: self.managing_editor.clone(),
            webmaster: self.webmaster.clone(),
            pub_date: self.pub_date.clone(),
            last_build_date: self.last_build_date.clone(),
            categories,
            generator: self.generator.clone(),
            docs: self.docs.clone(),
            cloud: self.cloud.clone(),
            ttl: self.ttl.clone(),
            image: self.image.clone(),
            text_input: self.text_input.clone(),
            skip_hours,
            skip_days,
            items,
            itunes_ext: self.itunes_ext.clone(),
        }
    }
}

impl Channel {
    /// The `title` field.
    pub fn title(&self) -> (r: String)
        ensures
            r == self.title,
    {
        self.title.clone()
    }

    /// The `link` field.
    pub fn link(&self) -> (r: String)
        ensures
            r == self.link,
    {
        self.link.clone()
    }

    /// The `description` field.
    pub fn description(&self) -> (r: String)
        ensures
            r == self.description,
    {
        self.description.clone()
    }

    /// The `language` field.
    pub fn language(&self) -> (r: Option<String>)
        ensures
            r == self.language,
    {
        self.language.clone()
    }

    /// The `copyright` field.
    pub fn copyright(&self) -> (r: Option<String>)
        ensures
            r == self.copyright,
    {
        self.copyright.clone()
    }

    /// The `managing_editor` field.
    pub fn managing_editor(&self) -> (r: Option<String>)
        ensures
            r == self.managing_editor,
    {
        self.managing_editor.clone()
    }

    /// The `webmaster` field.
    pub fn webmaster(&self) -> (r: Option<String>)
        ensures
            r == self.webmaster,
    {
        self.webmaster.clone()
    }

    /// The `pub_date` field.
    pub fn pub_date(&self) -> (r: Option<String>)
        ensures
            r == self.pub_date,
    {
        self.pub_date.clone()
    }

    /// The `last_build_date` field.
    pub fn last_build_date(&self) -> (r: Option<String>)
        ensures
            r == self.last_build_date,
    {
        self.last_build_date.clone()
    }

    /// The `categories` field.
    pub fn categories(&self) -> (r: Vec<Category>)
        ensures
            r@ == self.categories@,
    {
        let r = self.categories.clone();
        assert(r@ =~= self.categories@);
        r
    }

    /// The `generator` field.
    pub fn generator(&self) -> (r: Option<String>)
        ensures
            r == self.generator,
    {
        self.generator.clone()
    }

    /// The `docs` field.
    pub fn docs(&self) -> (r: Option<String>)
        ensures
            r == self.docs,
    {
        self.docs.clone()
    }

    /// The `cloud` field.
    pub fn cloud(&self) -> (r: Option<Cloud>)
        ensures
            r == self.cloud,
    {
        self.cloud.clone()
    }

    /// The `ttl` field.
    pub fn ttl(&self) -> (r: Option<String>)
        ensures
            r == self.ttl,
    {
        self.ttl.clone()
    }

    /// The `image` field.
    pub fn image(&self) -> (r: Option<Image>)
        ensures
            r == self.image,
    {
        self.image.clone()
    }

    /// The `text_input` field.
    pub fn text_input(&self) -> (r: Option<TextInput>)
        ensures
            r == self.text_input,
    {
        self.text_input.clone()
    }

    /// The `skip_hours` field.
    pub fn skip_hours(&self) -> (r: Vec<String>)
        ensures
            r@ == self.skip_hours@,
    {
        let r = self.skip_hours.clone();
        assert(r@ =~= self.skip_hours@);
        r
    }

    /// The `skip_days` field.
    pub fn skip_days(&self) -> (r: Vec<String>)
        ensures
            r@ == self.skip_days@,
    {
        let r = self.skip_days.clone();
        assert(r@ =~= self.skip_days@);
        r
    }

    /// The `items` field.
    pub fn items(&self) -> (r: Vec<Item>)
        ensures
            items_eq(r@, self.items@),
    {
        self.items.clone()
    }

    /// The `itunes_ext` field.
    pub fn itunes_ext(&self) -> (r: Option<ITunesChannelExtension>)
        ensures
            opt_itunes_ext_eq(r, self.itunes_ext),
    {
        self.itunes_ext.clone()
    }
}

/// Collects the fields of a [`Channel`].
pub struct ChannelBuilder {
    pub title: String,
    pub link: String,
    pub description: String,
    pub language: Option<String>,
    pub copyright: Option<String>,
    pub managing_editor: Option<String>,
    pub webmaster: Option<String>,
    pub pub_date: Option<String>,
    pub last_build_date: Option<String>,
    pub categories: Vec<Category>,
    pub generator: Option<String>,
    pub docs: Option<String>,
    pub cloud: Option<Cloud>,
    pub ttl: Option<i64>,
    pub image: Option<Image>,
    pub text_input: Option<TextInput>,
    pub skip_hours: Vec<i64>,
    pub skip_days: Vec<String>,
    pub items: Vec<Item>,
    pub itunes_ext: Option<ITunesChannelExtension>,
}

/// The message of a skip hour outside the hours of a day.
pub open spec fn hour_range_message(h: int) -> Seq<char> {
    "hour out of range 0 to 23: "@ + signed_decimal(h)
}

/// The message of a skip day that is not the name of a day of the week.
pub open spec fn weekday_message(d: Seq<char>) -> Seq<char> {
    "not a day of the week: "@ + d
}

/// Whether a text is the English name of a day of the week, capitalised.
pub open spec fn is_weekday(d: Seq<char>) -> bool {
    ||| d == "Monday"@
    ||| d == "Tuesday"@
    ||| d == "Wednesday"@
    ||| d == "Thursday"@
    ||| d == "Friday"@
    ||| d == "Saturday"@
    ||| d == "Sunday"@
}

/// The message of the first skip hour from position `i` on that is not an
/// hour of the day, if there is one.
pub open spec fn hours_error_from(h: Seq<i64>, i: int) -> Option<Seq<char>>
    decreases h.len() - i,
{
    if i < 0 || i >= h.len() {
        None
    } else if h[i] < 0 || h[i] > 23 {
        Some(field_message("Channel skip_hours"@, hour_range_message(h[i] as int)))
    } else {
        hours_error_from(h, i + 1)
    }
}

/// The message of the first negative skip hour from position `i` on, if
/// there is one.
pub open spec fn negative_hour_error_from(h: Seq<i64>, i: int) -> Option<Seq<char>>
    decreases h.len() - i,
{
    if i < 0 || i >= h.len() {
        None
    } else if h[i] < 0 {
        Some(field_message("Channel skip_hours"@, negative_value_message(h[i] as int)))
    } else {
        negative_hour_error_from(h, i + 1)
    }
}

/// The message of the first skip day from position `i` on that is not a day
/// of the week, if there is one.
pub open spec fn days_error_from(d: Seq<String>, i: int) -> Option<Seq<char>>
    decreases d.len() - i,
{
    if i < 0 || i >= d.len() {
        None
    } else if !is_weekday(d[i]@) {
        Some(field_message("Channel skip_days"@, weekday_message(d[i]@)))
    } else {
        days_error_from(d, i + 1)
    }
}

/// The first constraint that the builder's fields break, as its message.
pub open spec fn channel_error(b: ChannelBuilder) -> Option<Seq<char>> {
    if b.title@.len() == 0 {
        Some(field_message("Channel title"@, empty_field_message()))
    } else if b.link@.len() == 0 {
        Some(field_message("Channel link"@, empty_field_message()))
    } else if !is_url(b.link@) {
        Some(field_message("Channel link"@, invalid_url_message(b.link@)))
    } else if b.description@.len() == 0 {
        Some(field_message("Channel description"@, empty_field_message()))
    } else if !opt_not_negative(b.ttl) {
        Some(field_message("Channel ttl"@, negative_value_message(b.ttl->0 as int)))
    } else if hours_error_from(b.skip_hours@, 0) is Some {
        hours_error_from(b.skip_hours@, 0)
    } else if days_error_from(b.skip_days@, 0) is Some {
        days_error_from(b.skip_days@, 0)
    } else if opt_date_error("Channel pub_date"@, b.pub_date) is Some {
        opt_date_error("Channel pub_date"@, b.pub_date)
    } else {
        opt_date_error("Channel last_build_date"@, b.last_build_date)
    }
}

/// Skip hours written in decimal, position by position.
pub open spec fn hours_text_of(h: Seq<i64>, s: Seq<String>) -> bool {
    &&& s.len() == h.len()
    &&& forall|i: int| 0 <= i < h.len() ==> (#[trigger] s[i])@ == decimal(h[i] as nat)
}

/// The channel that a builder yields once neither the ttl nor a skip hour
/// is negative.
pub open spec fn channel_of(b: ChannelBuilder, c: Channel) -> bool {
    &&& c.title == b.title
    &&& c.link == b.link
    &&& c.description == b.description
    &&& c.language == b.language
    &&& c.copyright == b.copyright
    &&& c.managing_editor == b.managing_editor
    &&& c.webmaster == b.webmaster
    &&& c.pub_date == b.pub_date
    &&& c.last_build_date == b.last_build_date
    &&& c.categories@ == b.categories@
    &&& c.generator == b.generator
    &&& c.docs == b.docs
    &&& c.cloud == b.cloud
    &&& opt_decimal_of(b.ttl, c.ttl)
    &&& c.image == b.image
    &&& c.text_input == b.text_input
    &&& hours_text_of(b.skip_hours@, c.skip_hours@)
    &&& c.skip_days@ == b.skip_days@
    &&& items_eq(c.items@, b.items@)
    &&& opt_itunes_ext_eq(c.itunes_ext, b.itunes_ext)
}

/// Whether a text names a day of the week.
fn weekday(d: &String) -> (r: bool)
    ensures
        r == is_weekday(d@),
{
    *d == "Monday".to_owned() || *d == "Tuesday".to_owned() || *d == "Wednesday".to_owned()
        || *d == "Thursday".to_owned() || *d == "Friday".to_owned() || *d
        == "Saturday".to_owned() || *d == "Sunday".to_owned()
}

/// Checks that every skip hour is an hour of the day; the first that is not
/// is the error.
fn check_skip_hours(hours: &Vec<i64>) -> (r: Result<(), String>)
    ensures
        match r {
            Ok(_) => hours_error_from(hours@, 0) is None,
            Err(e) => hours_error_from(hours@, 0) == Some(e@),
        },
{
    let mut i: usize = 0;
    while i < hours.len()
        invariant
            0 <= i <= hours@.len(),
            hours_error_from(hours@, 0) == hours_error_from(hours@, i as int),
        decreases hours@.len() - i,
    {
        let h = hours[i];
        if h < 0 || h > 23 {
            let v = signed_to_string(h);
            let m = "hour out of range 0 to 23: ".to_owned().concat(v.as_str());
            return Err(with_field("Channel skip_hours", m));
        }
        i = i + 1;
    }
    Ok(())
}

/// Checks that every skip day names a day of the week; the first that does
/// not is the error.
fn check_skip_days(days: &Vec<String>) -> (r: Result<(), String>)
    ensures
        match r {
            Ok(_) => days_error_from(days@, 0) is None,
            Err(e) => days_error_from(days@, 0) == Some(e@),
        },
{
    let mut i: usize = 0;
    while i < days.len()
        invariant
            0 <= i <= days@.len(),
            days_error_from(days@, 0) == days_error_from(days@, i as int),
        decreases days@.len() - i,
    {
        if !weekday(&days[i]) {
            let m = "not a day of the week: ".to_owned().concat(days[i].as_str());
            return Err(with_field("Channel skip_days", m));
        }
        i = i + 1;
    }
    Ok(())
}

/// Writes every skip hour in decimal; the first negative one is the error.
fn hours_to_strings(hours: &Vec<i64>) -> (r: Result<Vec<String>, String>)
    ensures
        r is Ok <==> negative_hour_error_from(hours@, 0) is None,
        r matches Ok(v) ==> hours_text_of(hours@, v@),
        r matches Err(e) ==> negative_hour_error_from(hours@, 0) == Some(e@),
{
    let mut out: Vec<String> = Vec::new();
    let mut i: usize = 0;
    while i < hours.len()
        invariant
            0 <= i <= hours@.len(),
            negative_hour_error_from(hours@, 0) == negative_hour_error_from(hours@, i as int),
            hours_text_of(hours@.subrange(0, i as int), out@),
        decreases hours@.len() - i,
    {
        match i64_to_string(hours[i]) {
            Ok(s) => {
                out.push(s);
            },
            Err(e) => {
                return Err(with_field("Channel skip_hours", e));
            },
        }
        i = i + 1;
        assert(hours_text_of(hours@.subrange(0, i as int), out@)) by {
            assert forall|j: int| 0 <= j < i implies (#[trigger] out@[j])@ == decimal(
                hours@.subrange(0, i as int)[j] as nat,
            ) by {
                if j < i - 1 {
                    assert(hours@.subrange(0, i as int)[j] == hours@.subrange(0, i - 1)[j]);
                }
            }
        }
    }
    assert(hours@.subrange(0, i as int) =~= hours@);
    Ok(out)
}

impl Default for ChannelBuilder {
    /// The same builder as `new` makes.
    fn default() -> (r: ChannelBuilder)
        ensures
            r.title@ == Seq::<char>::empty(),
            r.link@ == Seq::<char>::empty(),
            r.description@ == Seq::<char>::empty(),
            r.language is None,
            r.copyright is None,
            r.managing_editor is None,
            r.webmaster is None,
            r.pub_date is None,
            r.last_build_date is None,
            r.categories@ == Seq::<Category>::empty(),
            r.generator is None,
            r.docs is None,
            r.cloud is None,
            r.ttl is None,
            r.image is None,
            r.text_input is None,
            r.skip_hours@ == Seq::<i64>::empty(),
            r.skip_days@ == Seq::<String>::empty(),
            r.items@ == Seq::<Item>::empty(),
            r.itunes_ext is None,
    {
        ChannelBuilder::new()
    }
}

impl ChannelBuilder {
    /// A builder with empty text fields, every optional field absent and every list empty.
    pub fn new() -> (r: ChannelBuilder)
        ensures
            r.title@ == Seq::<char>::empty(),
            r.link@ == Seq::<char>::empty(),
            r.description@ == Seq::<char>::empty(),
            r.language is None,
            r.copyright is None,
            r.managing_editor is None,
            r.webmaster is None,
            r.pub_date is None,
            r.last_build_date is None,
            r.categories@ == Seq::<Category>::empty(),
            r.generator is None,
            r.docs is None,
            r.cloud is None,
            r.ttl is None,
            r.image is None,
            r.text_input is None,
            r.skip_hours@ == Seq::<i64>::empty(),
            r.skip_days@ == Seq::<String>::empty(),
            r.items@ == Seq::<Item>::empty(),
            r.itunes_ext is None,
    {
        ChannelBuilder {
            title: String::new(),
            link: String::new(),
            description: String::new(),
            language: None,
            copyright: None,
            managing_editor: None,
            webmaster: None,
            pub_date: None,
            last_build_date: None,
            categories: Vec::new(),
            generator: None,
            docs: None,
            cloud: None,
            ttl: None,
            image: None,
            text_input: None,
            skip_hours: Vec::new(),
            skip_days: Vec::new(),
            items: Vec::new(),
            itunes_ext: None,
        }
    }

    /// Sets `title`, as given, and returns the builder.
    pub fn title(&mut self, title: &str) -> (r: &mut ChannelBuilder)
        ensures
            *r == (ChannelBuilder { title: r.title, ..*old(self) }),
            r.title@ == title@,
            *final(self) == *final(r),
    {
        self.title = title.to_owned();
        self
    }

    /// Sets `link`, as given, and returns the builder.
    pub fn link(&mut self, link: &str) -> (r: &mut ChannelBuilder)
        ensures
            *r == (ChannelBuilder { link: r.link, ..*old(self) }),
            r.link@ == link@,
            *final(self) == *final(r),
    {
        self.link = link.to_owned();
        self
    }

    /// Sets `description`, as given, and returns the builder.
    pub fn description(&mut self, description: &str) -> (r: &mut ChannelBuilder)
        ensures
            *r == (ChannelBuilder { description: r.description, ..*old(self) }),
            r.description@ == description@,
            *final(self) == *final(r),
    {
        self.description = description.to_owned();
        self
    }

    /// Sets `language`, as given, and returns the builder.
    pub fn language(&mut self, language: Option<String>) -> (r: &mut ChannelBuilder)
        ensures
            *r == (ChannelBuilder { language, ..*old(self) }),
            *final(self) == *final(r),
    {
        self.language = language;
        self
    }

    /// Sets `copyright`, as given, and returns the builder.
    pub fn copyright(&mut self, copyright: Option<String>) -> (r: &mut ChannelBuilder)
        ensures
            *r == (ChannelBuilder { copyright, ..*old(self) }),
            *final(self) == *final(r),
    {
        self.copyright = copyright;
        self
    }

    /// Sets `managing_editor`, as given, and returns the builder.
    pub fn managing_editor(&mut self, managing_editor: Option<String>) -> (r: &mut ChannelBuilder)
        ensures
            *r == (ChannelBuilder { managing_editor, ..*old(self) }),
            *final(self) == *final(r),
    {
        self.managing_editor = managing_editor;
        self
    }

    /// Sets `webmaster`, as given, and returns the builder.
    pub fn webmaster(&mut self, webmaster: Option<String>) -> (r: &mut ChannelBuilder)
        ensures
            *r == (ChannelBuilder { webmaster, ..*old(self) }),
            *final(self) == *final(r),
    {
        self.webmaster = webmaster;
        self
    }

    /// Sets `pub_date`, as given, and returns the builder.
    pub fn pub_date(&mut self, pub_date: Option<String>) -> (r: &mut ChannelBuilder)
        ensures
            *r == (ChannelBuilder { pub_date, ..*old(self) }),
            *final(self) == *final(r),
    {
        self.pub_date = pub_date;
        self
    }

    /// Sets `last_build_date`, as given, and returns the builder.
    pub fn last_build_date(&mut self, last_build_date: Option<String>) -> (r: &mut ChannelBuilder)
        ensures
            *r == (ChannelBuilder { last_build_date, ..*old(self) }),
            *final(self) == *final(r),
    {
        self.last_build_date = last_build_date;
        self
    }

    /// Sets `categories`, as given, and returns the builder.
    pub fn categories(&mut self, categories: Vec<Category>) -> (r: &mut ChannelBuilder)
        ensures
            *r == (ChannelBuilder { categories, ..*old(self) }),
            *final(self) == *final(r),
    {
        self.categories = categories;
        self
    }

    /// Sets `generator`, as given, and returns the builder.
    pub fn generator(&mut self, generator: Option<String>) -> (r: &mut ChannelBuilder)
        ensures
            *r == (ChannelBuilder { generator, ..*old(self) }),
            *final(self) == *final(r),
    {
        self.generator = generator;
        self
    }

    /// Sets `docs`, as given, and returns the builder.
    pub fn docs(&mut self, docs: Option<String>) -> (r: &mut ChannelBuilder)
        ensures
            *r == (ChannelBuilder { docs, ..*old(self) }),
            *final(self) == *final(r),
    {
        self.docs = docs;
        self
    }

    /// Sets `cloud`, as given, and returns the builder.
    pub fn cloud(&mut self, cloud: Option<Cloud>) -> (r: &mut ChannelBuilder)
        ensures
            *r == (ChannelBuilder { cloud, ..*old(self) }),
            *final(self) == *final(r),
    {
        self.cloud = cloud;
        self
    }

    /// Sets `ttl`, as given, and returns the builder.
    pub fn ttl(&mut self, ttl: Option<i64>) -> (r: &mut ChannelBuilder)
        ensures
            *r == (ChannelBuilder { ttl, ..*old(self) }),
            *final(self) == *final(r),
    {
        self.ttl = ttl;
        self
    }

    /// Sets `image`, as given, and returns the builder.
    pub fn image(&mut self, image: Option<Image>) -> (r: &mut ChannelBuilder)
        ensures
            *r == (ChannelBuilder { image, ..*old(self) }),
            *final(self) == *final(r),
    {
        self.image = image;
        self
    }

    /// Sets `text_input`, as given, and returns the builder.
    pub fn text_input(&mut self, text_input: Option<TextInput>) -> (r: &mut ChannelBuilder)
        ensures
            *r == (ChannelBuilder { text_input, ..*old(self) }),
            *final(self) == *final(r),
    {
        self.text_input = text_input;
        self
    }

    /// Sets `skip_hours`, as given, and returns the builder.
    pub fn skip_hours(&mut self, skip_hours: Vec<i64>) -> (r: &mut ChannelBuilder)
        ensures
            *r == (ChannelBuilder { skip_hours, ..*old(self) }),
            *final(self) == *final(r),
    {
        self.skip_hours = skip_hours;
        self
    }

    /// Sets `skip_days`, as given, and returns the builder.
    pub fn skip_days(&mut self, skip_days: Vec<String>) -> (r: &mut ChannelBuilder)
        ensures
            *r == (ChannelBuilder { skip_days, ..*old(self) }),
            *final(self) == *final(r),
    {
        self.skip_days = skip_days;
        self
    }

    /// Sets `items`, as given, and returns the builder.
    pub fn items(&mut self, items: Vec<Item>) -> (r: &mut ChannelBuilder)
        ensures
            *r == (ChannelBuilder { items, ..*old(self) }),
            *final(self) == *final(r),
    {
        self.items = items;
        self
    }

    /// Sets `itunes_ext`, as given, and returns the builder.
    pub fn itunes_ext(
        &mut self,
        itunes_ext: Option<ITunesChannelExtension>,
    ) -> (r: &mut ChannelBuilder)
        ensures
            *r == (ChannelBuilder { itunes_ext, ..*old(self) }),
            *final(self) == *final(r),
    {
        self.itunes_ext = itunes_ext;
        self
    }

    /// Checks, in this order, that title and link are not empty, that the
    /// link parses as a URL, that the description is not empty, that the ttl
    /// is not negative, that every skip hour is an hour of the day, that
    /// every skip day names a day of the week, and that the publication and
    /// last build dates parse; only fields that are present are checked.
    pub fn validate(&mut self) -> (r: Result<&mut ChannelBuilder, String>)
        ensures
            match r {
                Ok(b) => channel_error(*old(self)) is None && *b == *old(self) && *final(self)
                    == *final(b),
                Err(e) => channel_error(*old(self)) == Some(e@) && *final(self) == *old(self),
            },
    {
        if self.title.as_str().is_empty() {
            return Err(with_field("Channel title", empty_field_error()));
        }
        if self.link.as_str().is_empty() {
            return Err(with_field("Channel link", empty_field_error()));
        }
        match str_to_url(self.link.as_str()) {
            Ok(_) => {},
            Err(e) => {
                return Err(with_field("Channel link", e));
            },
        }
        if self.description.as_str().is_empty() {
            return Err(with_field("Channel description", empty_field_error()));
        }
        match opt_i64_to_string("Channel ttl", self.ttl) {
            Ok(_) => {},
            Err(e) => {
                return Err(e);
            },
        }
        match check_skip_hours(&self.skip_hours) {
            Ok(_) => {},
            Err(e) => {
                return Err(e);
            },
        }
        match check_skip_days(&self.skip_days) {
            Ok(_) => {},
            Err(e) => {
                return Err(e);
            },
        }
        match check_opt_date("Channel pub_date", &self.pub_date) {
            Ok(_) => {},
            Err(e) => {
                return Err(e);
            },
        }
        match check_opt_date("Channel last_build_date", &self.last_build_date) {
            Ok(_) => Ok(self),
            Err(e) => Err(e),
        }
    }

    /// Builds the channel, with the ttl and the skip hours written in
    /// decimal; fails only when one of them is negative, the ttl first.
    /// Nothing else is checked.
    pub fn finalize(&self) -> (r: Result<Channel, String>)
        ensures
            r is Ok <==> opt_not_negative(self.ttl) && negative_hour_error_from(
                self.skip_hours@,
                0,
            ) is None,
            r matches Ok(c) ==> channel_of(*self, c),
            r matches Err(e) ==> if !opt_not_negative(self.ttl) {
                e@ == field_message("Channel ttl"@, negative_value_message(self.ttl->0 as int))
            } else {
                negative_hour_error_from(self.skip_hours@, 0) == Some(e@)
            },
    {
        let ttl = match opt_i64_to_string("Channel ttl", self.ttl) {
            Ok(t) => t,
            Err(e) => {
                return Err(e);
            },
        };
        let skip_hours = match hours_to_strings(&self.skip_hours) {
            Ok(h) => h,
            Err(e) => {
                return Err(e);
            },
        };
        let categories = self.categories.clone();
        assert(categories@ =~= self.categories@);
        let skip_days = self.skip_days.clone();
        assert(skip_days@ =~= self.skip_days@);
        let items = self.items.clone();
        Ok(
            Channel {
                title: self.title.clone(),
                link: self.link.clone(),
                description: self.description.clone(),
                language: self.language.clone(),
                copyright: self.copyright.clone(),
                managing_editor: self.managing_editor.clone(),
                webmaster: self.webmaster.clone(),
                pub_date: self.pub_date.clone(),
                last_build_date: self.last_build_date.clone(),
                categories,
                generator: self.generator.clone(),
                docs: self.docs.clone(),
                cloud: self.cloud.clone(),
                ttl,
                image: self.image.clone(),
                text_input: self.text_input.clone(),
                skip_hours,
                skip_days,
                items,
                itunes_ext: self.itunes_ext.clone(),
            },
        )
    }
}

} // verus!
