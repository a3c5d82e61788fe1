//! Laws that relate the builders, their `finalize` and the getters of what
//! they build.
use vstd::prelude::*;
use crate::category::{category_of, Category, CategoryBuilder};
use crate::channel::{
    channel_eq, channel_error, channel_of, days_error_from, hours_error_from, hours_text_of,
    is_weekday, items_eq, negative_hour_error_from, opt_itunes_ext_eq, Channel, ChannelBuilder,
};
use crate::cloud::{cloud_eq, cloud_of, Cloud, CloudBuilder};
use crate::enclosure::{enclosure_eq, enclosure_error, enclosure_of, Enclosure, EnclosureBuilder};
use crate::guid::{guid_of, Guid, GuidBuilder};
use crate::image::{image_eq, image_of, Image, ImageBuilder};
use crate::item::{item_eq, item_of, Item, ItemBuilder};
use crate::itunes::{
    itunes_category_of, itunes_channel_ext_eq, itunes_channel_of, itunes_item_of, itunes_owner_of,
    ITunesCategory, ITunesCategoryBuilder, ITunesChannelExtension, ITunesChannelExtensionBuilder,
    ITunesItemExtension, ITunesItemExtensionBuilder, ITunesOwner, ITunesOwnerBuilder,
};
use crate::source::{source_of, Source, SourceBuilder};
use crate::text_input::{text_input_of, TextInput, TextInputBuilder};
use crate::utils::{decimal, is_mime, is_url, opt_decimal_of, opt_not_negative};

verus! {

/// Every field of a category built by `finalize` reads back, through its
/// getter, as the builder held it when `finalize` was called.
pub proof fn lemma_category_read_back(b: CategoryBuilder, e: Category)
    requires
        category_of(b, e),
    ensures
        e.name == b.name,
        e.domain == b.domain,
{
}

/// A builder left as `new` made it yields the defaults: every
/// text field of what it builds is empty, every optional field absent and
/// every list empty.
pub proof fn lemma_category_defaults(b: CategoryBuilder)
    requires
        b.name@ == Seq::<char>::empty(),
        b.domain is None,
    ensures
        forall|e: Category| category_of(b, e) ==> {
            &&& e.name@ == Seq::<char>::empty()
            &&& e.domain is None
        },
{
}

/// Calling `finalize` twice on the same builder gives equal results.
pub proof fn lemma_category_finalize_idempotent(b: CategoryBuilder, e1: Category, e2: Category)
    requires
        category_of(b, e1),
        category_of(b, e2),
    ensures
        e1 == e2,
{
}

/// Every field of a cloud built by `finalize` reads back, through its
/// getter, as the builder held it when `finalize` was called. The numbers are written in decimal.
pub proof fn lemma_cloud_read_back(b: CloudBuilder, e: Cloud)
    requires
        cloud_of(b, e),
    ensures
        e.domain == b.domain,
        e.port@ == decimal(b.port as nat),
        e.path == b.path,
        e.register_procedure == b.register_procedure,
        e.protocol == b.protocol,
{
}

/// A builder left as `new` made it yields the defaults: `finalize` succeeds on it, and every
/// text field of what it builds is empty, every optional field absent and
/// every list empty.
pub proof fn lemma_cloud_defaults(b: CloudBuilder)
    requires
        b.domain@ == Seq::<char>::empty(),
        b.port == 0,
        b.path@ == Seq::<char>::empty(),
        b.register_procedure@ == Seq::<char>::empty(),
        b.protocol@ == Seq::<char>::empty(),
    ensures
        b.port >= 0,
        forall|e: Cloud| cloud_of(b, e) ==> {
            &&& e.domain@ == Seq::<char>::empty()
            &&& e.port@ == seq!['0']
            &&& e.path@ == Seq::<char>::empty()
            &&& e.register_procedure@ == Seq::<char>::empty()
            &&& e.protocol@ == Seq::<char>::empty()
        },
{
    assert(decimal(0) =~= seq!['0']);
}

/// Calling `finalize` twice on the same builder gives equal results.
pub proof fn lemma_cloud_finalize_idempotent(b: CloudBuilder, e1: Cloud, e2: Cloud)
    requires
        cloud_of(b, e1),
        cloud_of(b, e2),
    ensures
        cloud_eq(e1, e2),
{
}

/// Every field of an enclosure built by `finalize` reads back, through its
/// getter, as the builder held it when `finalize` was called. The numbers are written in decimal.
pub proof fn lemma_enclosure_read_back(b: EnclosureBuilder, e: Enclosure)
    requires
        enclosure_of(b, e),
    ensures
        e.url == b.url,
        e.length@ == decimal(b.length as nat),
        e.mime_type == b.mime_type,
{
}

/// A builder left as `new` made it yields the defaults: `finalize` succeeds on it, and every
/// text field of what it builds is empty, every optional field absent and
/// every list empty.
pub proof fn lemma_enclosure_defaults(b: EnclosureBuilder)
    requires
        b.url@ == Seq::<char>::empty(),
        b.length == 0,
        b.mime_type@ == Seq::<char>::empty(),
    ensures
        b.length >= 0,
        forall|e: Enclosure| enclosure_of(b, e) ==> {
            &&& e.url@ == Seq::<char>::empty()
            &&& e.length@ == seq!['0']
            &&& e.mime_type@ == Seq::<char>::empty()
        },
{
    assert(decimal(0) =~= seq!['0']);
}

/// Calling `finalize` twice on the same builder gives equal results.
pub proof fn lemma_enclosure_finalize_idempotent(b: EnclosureBuilder, e1: Enclosure, e2: Enclosure)
    requires
        enclosure_of(b, e1),
        enclosure_of(b, e2),
    ensures
        enclosure_eq(e1, e2),
{
}

/// Every field of a guid built by `finalize` reads back, through its
/// getter, as the builder held it when `finalize` was called.
pub proof fn lemma_guid_read_back(b: GuidBuilder, e: Guid)
    requires
        guid_of(b, e),
    ensures
        e.value == b.value,
        e.is_permalink == (b.is_permalink matches Some(p) ==> p),
{
}

/// A builder left as `new` made it yields the defaults: every
/// text field of what it builds is empty, every optional field absent and
/// every list empty.
pub proof fn lemma_guid_defaults(b: GuidBuilder)
    requires
        b.value@ == Seq::<char>::empty(),
        b.is_permalink is None,
    ensures
        forall|e: Guid| guid_of(b, e) ==> {
            &&& e.value@ == Seq::<char>::empty()
            &&& e.is_permalink
        },
{
}

/// Calling `finalize` twice on the same builder gives equal results.
pub proof fn lemma_guid_finalize_idempotent(b: GuidBuilder, e1: Guid, e2: Guid)
    requires
        guid_of(b, e1),
        guid_of(b, e2),
    ensures
        e1 == e2,
{
}

/// Every field of an image built by `finalize` reads back, through its
/// getter, as the builder held it when `finalize` was called. The numbers are written in decimal.
pub proof fn lemma_image_read_back(b: ImageBuilder, e: Image)
    requires
        image_of(b, e),
    ensures
        e.url == b.url,
        e.title == b.title,
        e.link == b.link,
        opt_decimal_of(b.width, e.width),
        opt_decimal_of(b.height, e.height),
        e.description == b.description,
{
}

/// A builder left as `new` made it yields the defaults: `finalize` succeeds on it, and every
/// text field of what it builds is empty, every optional field absent and
/// every list empty.
pub proof fn lemma_image_defaults(b: ImageBuilder)
    requires
        b.url@ == Seq::<char>::empty(),
        b.title@ == Seq::<char>::empty(),
        b.link@ == Seq::<char>::empty(),
        b.width is None,
        b.height is None,
        b.description is None,
    ensures
        opt_not_negative(b.width) && opt_not_negative(b.height),
        forall|e: Image| image_of(b, e) ==> {
            &&& e.url@ == Seq::<char>::empty()
            &&& e.title@ == Seq::<char>::empty()
            &&& e.link@ == Seq::<char>::empty()
            &&& e.width is None
            &&& e.height is None
            &&& e.description is None
        },
{
}

/// Calling `finalize` twice on the same builder gives equal results.
pub proof fn lemma_image_finalize_idempotent(b: ImageBuilder, e1: Image, e2: Image)
    requires
        image_of(b, e1),
        image_of(b, e2),
    ensures
        image_eq(e1, e2),
{
}

/// Every field of a source built by `finalize` reads back, through its
/// getter, as the builder held it when `finalize` was called.
pub proof fn lemma_source_read_back(b: SourceBuilder, e: Source)
    requires
        source_of(b, e),
    ensures
        e.url == b.url,
        e.title == b.title,
{
}

/// A builder left as `new` made it yields the defaults: every
/// text field of what it builds is empty, every optional field absent and
/// every list empty.
pub proof fn lemma_source_defaults(b: SourceBuilder)
    requires
        b.url@ == Seq::<char>::empty(),
        b.title is None,
    ensures
        forall|e: Source| source_of(b, e) ==> {
            &&& e.url@ == Seq::<char>::empty()
            &&& e.title is None
        },
{
}

/// Calling `finalize` twice on the same builder gives equal results.
pub proof fn lemma_source_finalize_idempotent(b: SourceBuilder, e1: Source, e2: Source)
    requires
        source_of(b, e1),
        source_of(b, e2),
    ensures
        e1 == e2,
{
}

/// Every field of a text input built by `finalize` reads back, through its
/// getter, as the builder held it when `finalize` was called.
pub proof fn lemma_text_input_read_back(b: TextInputBuilder, e: TextInput)
    requires
        text_input_of(b, e),
    ensures
        e.title == b.title,
        e.description == b.description,
        e.name == b.name,
        e.link == b.link,
{
}

/// A builder left as `new` made it yields the defaults: every
/// text field of what it builds is empty, every optional field absent and
/// every list empty.
pub proof fn lemma_text_input_defaults(b: TextInputBuilder)
    requires
        b.title@ == Seq::<char>::empty(),
        b.description@ == Seq::<char>::empty(),
        b.name@ == Seq::<char>::empty(),
        b.link@ == Seq::<char>::empty(),
    ensures
        forall|e: TextInput| text_input_of(b, e) ==> {
            &&& e.title@ == Seq::<char>::empty()
            &&& e.description@ == Seq::<char>::empty()
            &&& e.name@ == Seq::<char>::empty()
            &&& e.link@ == Seq::<char>::empty()
        },
{
}

/// Calling `finalize` twice on the same builder gives equal results.
pub proof fn lemma_text_input_finalize_idempotent(b: TextInputBuilder, e1: TextInput, e2: TextInput)
    requires
        text_input_of(b, e1),
        text_input_of(b, e2),
    ensures
        e1 == e2,
{
}

/// Every field of an item built by `finalize` reads back, through its
/// getter, as the builder held it when `finalize` was called.
pub proof fn lemma_item_read_back(b: ItemBuilder, e: Item)
    requires
        item_of(b, e),
    ensures
        e.title == b.title,
        e.link == b.link,
        e.description == b.description,
        e.author == b.author,
        e.categories@ == b.categories@,
        e.comments == b.comments,
        e.enclosure == b.enclosure,
        e.guid == b.guid,
        e.pub_date == b.pub_date,
        e.source == b.source,
        e.itunes_ext == b.itunes_ext,
{
}

/// A builder left as `new` made it yields the defaults: every
/// text field of what it builds is empty, every optional field absent and
/// every list empty.
pub proof fn lemma_item_defaults(b: ItemBuilder)
    requires
        b.title is None,
        b.link is None,
        b.description is None,
        b.author is None,
        b.categories@ == Seq::<Category>::empty(),
        b.comments is None,
        b.enclosure is None,
        b.guid is None,
        b.pub_date is None,
        b.source is None,
        b.itunes_ext is None,
    ensures
        forall|e: Item| item_of(b, e) ==> {
            &&& e.title is None
            &&& e.link is None
            &&& e.description is None
            &&& e.author is None
            &&& e.categories@.len() == 0
            &&& e.comments is None
            &&& e.enclosure is None
            &&& e.guid is None
            &&& e.pub_date is None
            &&& e.source is None
            &&& e.itunes_ext is None
        },
{
}

/// Calling `finalize` twice on the same builder gives equal results.
pub proof fn lemma_item_finalize_idempotent(b: ItemBuilder, e1: Item, e2: Item)
    requires
        item_of(b, e1),
        item_of(b, e2),
    ensures
        item_eq(e1, e2),
{
}

/// Every field of a channel built by `finalize` reads back, through its
/// getter, as the builder held it when `finalize` was called. The numbers are written in decimal.
pub proof fn lemma_channel_read_back(b: ChannelBuilder, e: Channel)
    requires
        channel_of(b, e),
    ensures
        e.title == b.title,
        e.link == b.link,
        e.description == b.description,
        e.language == b.language,
        e.copyright == b.copyright,
        e.managing_editor == b.managing_editor,
        e.webmaster == b.webmaster,
        e.pub_date == b.pub_date,
        e.last_build_date == b.last_build_date,
        e.categories@ == b.categories@,
        e.generator == b.generator,
        e.docs == b.docs,
        e.cloud == b.cloud,
        opt_decimal_of(b.ttl, e.ttl),
        e.image == b.image,
        e.text_input == b.text_input,
        hours_text_of(b.skip_hours@, e.skip_hours@),
        e.skip_days@ == b.skip_days@,
        items_eq(e.items@, b.items@),
        opt_itunes_ext_eq(e.itunes_ext, b.itunes_ext),
{
}

/// A builder left as `new` made it yields the defaults: `finalize` succeeds on it, and every
/// text field of what it builds is empty, every optional field absent and
/// every list empty.
pub proof fn lemma_channel_defaults(b: ChannelBuilder)
    requires
        b.title@ == Seq::<char>::empty(),
        b.link@ == Seq::<char>::empty(),
        b.description@ == Seq::<char>::empty(),
        b.language is None,
        b.copyright is None,
        b.managing_editor is None,
        b.webmaster is None,
        b.pub_date is None,
        b.last_build_date is None,
        b.categories@ == Seq::<Category>::empty(),
        b.generator is None,
        b.docs is None,
        b.cloud is None,
        b.ttl is None,
        b.image is None,
        b.text_input is None,
        b.skip_hours@ == Seq::<i64>::empty(),
        b.skip_days@ == Seq::<String>::empty(),
        b.items@ == Seq::<Item>::empty(),
        b.itunes_ext is None,
    ensures
        opt_not_negative(b.ttl) && negative_hour_error_from(b.skip_hours@, 0) is None,
        forall|e: Channel| channel_of(b, e) ==> {
            &&& e.title@ == Seq::<char>::empty()
            &&& e.link@ == Seq::<char>::empty()
            &&& e.description@ == Seq::<char>::empty()
            &&& e.language is None
            &&& e.copyright is None
            &&& e.managing_editor is None
            &&& e.webmaster is None
            &&& e.pub_date is None
            &&& e.last_build_date is None
            &&& e.categories@.len() == 0
            &&& e.generator is None
            &&& e.docs is None
            &&& e.cloud is None
            &&& e.ttl is None
            &&& e.image is None
            &&& e.text_input is None
            &&& e.skip_hours@.len() == 0
            &&& e.skip_days@.len() == 0
            &&& e.items@.len() == 0
            &&& e.itunes_ext is None
        },
{
}

/// Calling `finalize` twice on the same builder gives equal results.
pub proof fn lemma_channel_finalize_idempotent(b: ChannelBuilder, e1: Channel, e2: Channel)
    requires
        channel_of(b, e1),
        channel_of(b, e2),
    ensures
        channel_eq(e1, e2),
{
    assert forall|i: int| 0 <= i < e1.items@.len() implies #[trigger] item_eq(
        e1.items@[i],
        e2.items@[i],
    ) by {
        assert(item_eq(e1.items@[i], b.items@[i]));
        assert(item_eq(e2.items@[i], b.items@[i]));
    }
    assert forall|i: int| 0 <= i < e1.skip_hours@.len() implies (#[trigger] e1.skip_hours@[i])@
        == e2.skip_hours@[i]@ by {
        assert(e1.skip_hours@[i]@ == decimal(b.skip_hours@[i] as nat));
        assert(e2.skip_hours@[i]@ == decimal(b.skip_hours@[i] as nat));
    }
}

/// Every field of an iTunes owner built by `finalize` reads back, through its
/// getter, as the builder held it when `finalize` was called.
pub proof fn lemma_itunes_owner_read_back(b: ITunesOwnerBuilder, e: ITunesOwner)
    requires
        itunes_owner_of(b, e),
    ensures
        e.name == b.name,
        e.email == b.email,
{
}

/// A builder left as `new` made it yields the defaults: every
/// text field of what it builds is empty, every optional field absent and
/// every list empty.
pub proof fn lemma_itunes_owner_defaults(b: ITunesOwnerBuilder)
    requires
        b.name is None,
        b.email is None,
    ensures
        forall|e: ITunesOwner| itunes_owner_of(b, e) ==> {
            &&& e.name is None
            &&& e.email is None
        },
{
}

/// Calling `finalize` twice on the same builder gives equal results.
pub proof fn lemma_itunes_owner_finalize_idempotent(
    b: ITunesOwnerBuilder,
    e1: ITunesOwner,
    e2: ITunesOwner,
)
    requires
        itunes_owner_of(b, e1),
        itunes_owner_of(b, e2),
    ensures
        e1 == e2,
{
}

/// Every field of an iTunes category built by `finalize` reads back, through its
/// getter, as the builder held it when `finalize` was called.
pub proof fn lemma_itunes_category_read_back(b: ITunesCategoryBuilder, e: ITunesCategory)
    requires
        itunes_category_of(b, e),
    ensures
        e.text == b.text,
        e.subcategory == b.subcategory,
{
}

/// A builder left as `new` made it yields the defaults: every
/// text field of what it builds is empty, every optional field absent and
/// every list empty.
pub proof fn lemma_itunes_category_defaults(b: ITunesCategoryBuilder)
    requires
        b.text@ == Seq::<char>::empty(),
        b.subcategory is None,
    ensures
        forall|e: ITunesCategory| itunes_category_of(b, e) ==> {
            &&& e.text@ == Seq::<char>::empty()
            &&& e.subcategory is None
        },
{
}

/// Calling `finalize` twice on the same builder gives equal results.
pub proof fn lemma_itunes_category_finalize_idempotent(
    b: ITunesCategoryBuilder,
    e1: ITunesCategory,
    e2: ITunesCategory,
)
    requires
        itunes_category_of(b, e1),
        itunes_category_of(b, e2),
    ensures
        e1 == e2,
{
}

/// Every field of an iTunes channel extension built by `finalize` reads back, through its
/// getter, as the builder held it when `finalize` was called.
pub proof fn lemma_itunes_channel_read_back(
    b: ITunesChannelExtensionBuilder,
    e: ITunesChannelExtension,
)
    requires
        itunes_channel_of(b, e),
    ensures
        e.author == b.author,
        e.block == b.block,
        e.categories@ == b.categories@,
        e.image == b.image,
        e.explicit == b.explicit,
        e.complete == b.complete,
        e.new_feed_url == b.new_feed_url,
        e.owner == b.owner,
        e.subtitle == b.subtitle,
        e.summary == b.summary,
        e.keywords == b.keywords,
{
}

/// A builder left as `new` made it yields the defaults: every
/// text field of what it builds is empty, every optional field absent and
/// every list empty.
pub proof fn lemma_itunes_channel_defaults(b: ITunesChannelExtensionBuilder)
    requires
        b.author is None,
        b.block is None,
        b.categories@ == Seq::<ITunesCategory>::empty(),
        b.image is None,
        b.explicit is None,
        b.complete is None,
        b.new_feed_url is None,
        b.owner is None,
        b.subtitle is None,
        b.summary is None,
        b.keywords is None,
    ensures
        forall|e: ITunesChannelExtension| itunes_channel_of(b, e) ==> {
            &&& e.author is None
            &&& e.block is None
            &&& e.categories@.len() == 0
            &&& e.image is None
            &&& e.explicit is None
            &&& e.complete is None
            &&& e.new_feed_url is None
            &&& e.owner is None
            &&& e.subtitle is None
            &&& e.summary is None
            &&& e.keywords is None
        },
{
}

/// Calling `finalize` twice on the same builder gives equal results.
pub proof fn lemma_itunes_channel_finalize_idempotent(
    b: ITunesChannelExtensionBuilder,
    e1: ITunesChannelExtension,
    e2: ITunesChannelExtension,
)
    requires
        itunes_channel_of(b, e1),
        itunes_channel_of(b, e2),
    ensures
        itunes_channel_ext_eq(e1, e2),
{
}

/// Every field of an iTunes item extension built by `finalize` reads back, through its
/// getter, as the builder held it when `finalize` was called.
pub proof fn lemma_itunes_item_read_back(b: ITunesItemExtensionBuilder, e: ITunesItemExtension)
    requires
        itunes_item_of(b, e),
    ensures
        e.author == b.author,
        e.block == b.block,
        e.image == b.image,
        e.duration == b.duration,
        e.explicit == b.explicit,
        e.closed_captioned == b.closed_captioned,
        e.order == b.order,
        e.subtitle == b.subtitle,
        e.summary == b.summary,
        e.keywords == b.keywords,
{
}

/// A builder left as `new` made it yields the defaults: every
/// text field of what it builds is empty, every optional field absent and
/// every list empty.
pub proof fn lemma_itunes_item_defaults(b: ITunesItemExtensionBuilder)
    requires
        b.author is None,
        b.block is None,
        b.image is None,
        b.duration is None,
        b.explicit is None,
        b.closed_captioned is None,
        b.order is None,
        b.subtitle is None,
        b.summary is None,
        b.keywords is None,
    ensures
        forall|e: ITunesItemExtension| itunes_item_of(b, e) ==> {
            &&& e.author is None
            &&& e.block is None
            &&& e.image is None
            &&& e.duration is None
            &&& e.explicit is None
            &&& e.closed_captioned is None
            &&& e.order is None
            &&& e.subtitle is None
            &&& e.summary is None
            &&& e.keywords is None
        },
{
}

/// Calling `finalize` twice on the same builder gives equal results.
pub proof fn lemma_itunes_item_finalize_idempotent(
    b: ITunesItemExtensionBuilder,
    e1: ITunesItemExtension,
    e2: ITunesItemExtension,
)
    requires
        itunes_item_of(b, e1),
        itunes_item_of(b, e2),
    ensures
        e1 == e2,
{
}

/// `validate` on an enclosure builder fails when the length is negative.
pub proof fn lemma_enclosure_negative_length_fails(b: EnclosureBuilder)
    requires
        b.length < 0,
    ensures
        enclosure_error(b) is Some,
{
}

/// `validate` on an enclosure builder whose url and MIME type parse succeeds
/// when the length is not negative.
pub proof fn lemma_enclosure_valid_length_passes(b: EnclosureBuilder)
    requires
        b.length >= 0,
        is_url(b.url@),
        is_mime(b.mime_type@),
    ensures
        enclosure_error(b) is None,
{
}

proof fn lemma_hours_error_found(h: Seq<i64>, i: int, k: int)
    requires
        0 <= i <= k < h.len(),
        h[k] < 0 || h[k] > 23,
    ensures
        hours_error_from(h, i) is Some,
    decreases k - i,
{
    if i < k && 0 <= h[i] <= 23 {
        lemma_hours_error_found(h, i + 1, k);
    }
}

proof fn lemma_hours_error_none(h: Seq<i64>, i: int)
    requires
        0 <= i <= h.len(),
        forall|j: int| i <= j < h.len() ==> 0 <= #[trigger] h[j] <= 23,
    ensures
        hours_error_from(h, i) is None,
    decreases h.len() - i,
{
    if i < h.len() {
        lemma_hours_error_none(h, i + 1);
    }
}

proof fn lemma_days_error_found(d: Seq<String>, i: int, k: int)
    requires
        0 <= i <= k < d.len(),
        !is_weekday(d[k]@),
    ensures
        days_error_from(d, i) is Some,
    decreases k - i,
{
    if i < k && is_weekday(d[i]@) {
        lemma_days_error_found(d, i + 1, k);
    }
}

proof fn lemma_days_error_none(d: Seq<String>, i: int)
    requires
        0 <= i <= d.len(),
        forall|j: int| i <= j < d.len() ==> is_weekday(#[trigger] d[j]@),
    ensures
        days_error_from(d, i) is None,
    decreases d.len() - i,
{
    if i < d.len() {
        lemma_days_error_none(d, i + 1);
    }
}

/// The skip hours pass `validate` on a channel exactly when every one of
/// them lies between 0 and 23; so `validate` fails when one does not.
pub proof fn lemma_channel_skip_hours(b: ChannelBuilder)
    ensures
        hours_error_from(b.skip_hours@, 0) is None <==> forall|j: int|
            0 <= j < b.skip_hours@.len() ==> 0 <= #[trigger] b.skip_hours@[j] <= 23,
        (exists|j: int|
            0 <= j < b.skip_hours@.len() && (#[trigger] b.skip_hours@[j] < 0 || b.skip_hours@[j]
                > 23)) ==> channel_error(b) is Some,
{
    if forall|j: int| 0 <= j < b.skip_hours@.len() ==> 0 <= #[trigger] b.skip_hours@[j] <= 23 {
        lemma_hours_error_none(b.skip_hours@, 0);
    } else {
        let k = choose|j: int|
            0 <= j < b.skip_hours@.len() && !(0 <= #[trigger] b.skip_hours@[j] <= 23);
        lemma_hours_error_found(b.skip_hours@, 0, k);
    }
}

/// The skip days pass `validate` on a channel exactly when every one of
/// them is the name of a day of the week; so `validate` fails when one is
/// not.
pub proof fn lemma_channel_skip_days(b: ChannelBuilder)
    ensures
        days_error_from(b.skip_days@, 0) is None <==> forall|j: int|
            0 <= j < b.skip_days@.len() ==> is_weekday(#[trigger] b.skip_days@[j]@),
        (exists|j: int| 0 <= j < b.skip_days@.len() && !is_weekday(#[trigger] b.skip_days@[j]@))
            ==> channel_error(b) is Some,
{
    if forall|j: int| 0 <= j < b.skip_days@.len() ==> is_weekday(#[trigger] b.skip_days@[j]@) {
        lemma_days_error_none(b.skip_days@, 0);
    } else {
        let k = choose|j: int|
            0 <= j < b.skip_days@.len() && !is_weekday(#[trigger] b.skip_days@[j]@);
        lemma_days_error_found(b.skip_days@, 0, k);
    }
}

} // verus!
