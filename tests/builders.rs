use feed::utils::{i64_to_string, signed_to_string, str_to_mime, str_to_url, u64_to_string, validate_date};
use feed::{
    CategoryBuilder, ChannelBuilder, CloudBuilder, EnclosureBuilder, GuidBuilder, ImageBuilder,
    ITunesCategoryBuilder, ITunesChannelExtensionBuilder, ITunesItemExtensionBuilder,
    ITunesOwnerBuilder, ItemBuilder, SourceBuilder, TextInputBuilder,
};

fn channel_base() -> ChannelBuilder {
    let mut b = ChannelBuilder::new();
    b.title("The Linux Action Show! OGG")
        .link("http://www.jupiterbroadcasting.com")
        .description("Ogg Vorbis audio versions of The Linux Action Show!");
    b
}

#[test]
fn decimal_conversions() {
    assert_eq!(u64_to_string(0), "0");
    assert_eq!(u64_to_string(80), "80");
    assert_eq!(u64_to_string(18446744073709551615), "18446744073709551615");
    assert_eq!(signed_to_string(-42), "-42");
    assert_eq!(signed_to_string(i64::MIN), "-9223372036854775808");
    assert_eq!(i64_to_string(70772893), Ok("70772893".to_owned()));
    assert_eq!(i64_to_string(-1), Err("Negative value: -1".to_owned()));
}

#[test]
fn url_mime_and_date_parsing() {
    assert!(str_to_url("http://rpc.sys.com/").is_ok());
    assert_eq!(str_to_url("not a url").unwrap_err(), "Invalid URL: not a url");
    assert!(str_to_mime("audio/ogg").is_ok());
    assert_eq!(str_to_mime("audio").unwrap_err(), "Invalid MIME type: audio");
    assert_eq!(validate_date("Tue, 1 Jul 2003 10:52:37 +0200"), Ok(()));
    assert_eq!(
        validate_date("2003-07-01").unwrap_err(),
        "Invalid RFC 2822 date: 2003-07-01"
    );
}

#[test]
fn cloud_end_to_end() {
    let cloud = CloudBuilder::new()
        .domain("http://rpc.sys.com/")
        .port(80)
        .path("/RPC2")
        .register_procedure("pingMe")
        .protocol("soap")
        .validate()
        .unwrap()
        .finalize()
        .unwrap();
    assert_eq!(cloud.domain(), "http://rpc.sys.com/");
    assert_eq!(cloud.port(), "80");
    assert_eq!(cloud.path(), "/RPC2");
    assert_eq!(cloud.register_procedure(), "pingMe");
    assert_eq!(cloud.protocol(), "soap");
}

#[test]
fn cloud_errors() {
    let mut b = CloudBuilder::new();
    b.domain("rpc.sys.com").port(80);
    assert_eq!(b.validate().err().unwrap(), "Cloud domain: Invalid URL: rpc.sys.com");
    b.domain("http://rpc.sys.com/").port(-80);
    assert_eq!(b.validate().err().unwrap(), "Cloud port: Negative value: -80");
    assert_eq!(b.finalize().err().unwrap(), "Cloud port: Negative value: -80");
}

#[test]
fn enclosure_round_trip() {
    let url = "http://www.podtrac.com/pts/redirect.ogg/traffic.libsyn.com/jnite/linuxactionshowep408.ogg";
    let enclosure = EnclosureBuilder::new()
        .url(url)
        .length(70772893)
        .mime_type("audio/ogg")
        .validate()
        .unwrap()
        .finalize()
        .unwrap();
    assert_eq!(enclosure.url(), url);
    assert_eq!(enclosure.length(), "70772893");
    assert_eq!(enclosure.mime_type(), "audio/ogg");
}

#[test]
fn enclosure_negative_length() {
    let mut b = EnclosureBuilder::new();
    b.url("http://example.com/a.ogg").mime_type("audio/ogg").length(-5);
    assert_eq!(b.validate().err().unwrap(), "Enclosure length: Negative value: -5");
    assert_eq!(b.finalize().err().unwrap(), "Enclosure length: Negative value: -5");
}

#[test]
fn enclosure_validate_leaves_builder_unchanged() {
    let mut b = EnclosureBuilder::new();
    b.url("http://example.com/a.ogg").mime_type("audio/ogg").length(0);
    assert!(b.validate().is_ok());
    assert_eq!(b.url, "http://example.com/a.ogg");
    assert_eq!(b.length, 0);
    assert_eq!(b.mime_type, "audio/ogg");
}

#[test]
fn enclosure_bad_mime_and_url() {
    let mut b = EnclosureBuilder::new();
    b.url("http://example.com/a.ogg").mime_type("ogg").length(1);
    assert_eq!(b.validate().err().unwrap(), "Enclosure mime_type: Invalid MIME type: ogg");
    b.url("");
    assert_eq!(b.validate().err().unwrap(), "Enclosure url: Invalid URL: ");
}

#[test]
fn source_round_trip_and_error() {
    let source = SourceBuilder::new()
        .url("http://www.example.com/source")
        .title(Some("Test".to_owned()))
        .validate()
        .unwrap()
        .finalize()
        .unwrap();
    assert_eq!(source.url(), "http://www.example.com/source");
    assert_eq!(source.title(), Some("Test".to_owned()));
    let mut b = SourceBuilder::new();
    assert_eq!(b.validate().err().unwrap(), "Source url: Invalid URL: ");
    let s = b.finalize().unwrap();
    assert_eq!(s.url(), "");
    assert_eq!(s.title(), None);
}

#[test]
fn category_rules() {
    let c = CategoryBuilder::new()
        .name("Podcast")
        .domain(Some("http://www.example.com/categories".to_owned()))
        .validate()
        .unwrap()
        .finalize()
        .unwrap();
    assert_eq!(c.name(), "Podcast");
    assert_eq!(c.domain(), Some("http://www.example.com/categories".to_owned()));
    let mut b = CategoryBuilder::new();
    assert_eq!(b.validate().err().unwrap(), "Category name: cannot be empty");
    b.name("Podcast").domain(Some("nowhere".to_owned()));
    assert_eq!(b.validate().err().unwrap(), "Category domain: Invalid URL: nowhere");
}

#[test]
fn guid_defaults_to_permalink() {
    let g = GuidBuilder::new().value("http://example.com/1").finalize().unwrap();
    assert_eq!(g.value(), "http://example.com/1");
    assert!(g.is_permalink());
    let g = GuidBuilder::new().value("id-1").is_permalink(Some(false)).validate().unwrap().finalize().unwrap();
    assert!(!g.is_permalink());
}

#[test]
fn image_rules() {
    let mut b = ImageBuilder::new();
    b.url("http://example.com/logo.png")
        .title("Logo")
        .link("http://example.com")
        .width(Some(88))
        .height(Some(31))
        .description(Some("The logo".to_owned()));
    let image = b.validate().unwrap().finalize().unwrap();
    assert_eq!(image.url(), "http://example.com/logo.png");
    assert_eq!(image.title(), "Logo");
    assert_eq!(image.link(), "http://example.com");
    assert_eq!(image.width(), Some("88".to_owned()));
    assert_eq!(image.height(), Some("31".to_owned()));
    assert_eq!(image.description(), Some("The logo".to_owned()));
    b.width(Some(145));
    assert_eq!(b.validate().err().unwrap(), "Image width: Value 145 exceeds the limit of 144");
    b.width(Some(144)).height(Some(401));
    assert_eq!(b.validate().err().unwrap(), "Image height: Value 401 exceeds the limit of 400");
    b.height(Some(-1));
    assert_eq!(b.validate().err().unwrap(), "Image height: Negative value: -1");
    assert_eq!(b.finalize().err().unwrap(), "Image height: Negative value: -1");
    b.link("example");
    assert_eq!(b.validate().err().unwrap(), "Image link: Invalid URL: example");
}

#[test]
fn text_input_rules() {
    let t = TextInputBuilder::new()
        .title("Search")
        .description("Search the archive")
        .name("q")
        .link("http://example.com/search")
        .validate()
        .unwrap()
        .finalize()
        .unwrap();
    assert_eq!(t.title(), "Search");
    assert_eq!(t.description(), "Search the archive");
    assert_eq!(t.name(), "q");
    assert_eq!(t.link(), "http://example.com/search");
    let mut b = TextInputBuilder::new();
    assert_eq!(b.validate().err().unwrap(), "TextInput link: Invalid URL: ");
}

#[test]
fn item_with_description_only_validates() {
    let mut b = ItemBuilder::new();
    b.description(Some("An episode".to_owned()));
    assert!(b.validate().is_ok());
    let item = b.finalize().unwrap();
    assert_eq!(item.title(), None);
    assert_eq!(item.description(), Some("An episode".to_owned()));
}

#[test]
fn item_without_title_or_description_fails() {
    let mut b = ItemBuilder::new();
    b.link(Some("http://example.com/1".to_owned()));
    assert_eq!(
        b.validate().err().unwrap(),
        "Item: either title or description must be present"
    );
}

#[test]
fn item_field_checks() {
    let mut b = ItemBuilder::new();
    b.title(Some("Episode".to_owned())).link(Some("example".to_owned()));
    assert_eq!(b.validate().err().unwrap(), "Item link: Invalid URL: example");
    b.link(None).comments(Some("comments".to_owned()));
    assert_eq!(b.validate().err().unwrap(), "Item comments: Invalid URL: comments");
    b.comments(None).pub_date(Some("yesterday".to_owned()));
    assert_eq!(b.validate().err().unwrap(), "Item pub_date: Invalid RFC 2822 date: yesterday");
    b.pub_date(Some("Sun, 13 Mar 2016 20:02:02 -0700".to_owned()));
    assert!(b.validate().is_ok());
}

#[test]
fn item_round_trip() {
    let enclosure = EnclosureBuilder::new()
        .url("http://example.com/a.ogg")
        .length(10)
        .mime_type("audio/ogg")
        .finalize()
        .unwrap();
    let category = CategoryBuilder::new().name("Tech").finalize().unwrap();
    let ext = ITunesItemExtensionBuilder::new()
        .duration(Some("01:02:03".to_owned()))
        .finalize()
        .unwrap();
    let item = ItemBuilder::new()
        .title(Some("Episode 1".to_owned()))
        .author(Some("host@example.com".to_owned()))
        .categories(vec![category])
        .enclosure(Some(enclosure))
        .itunes_ext(Some(ext))
        .validate()
        .unwrap()
        .finalize()
        .unwrap();
    assert_eq!(item.title(), Some("Episode 1".to_owned()));
    assert_eq!(item.author(), Some("host@example.com".to_owned()));
    assert_eq!(item.categories().len(), 1);
    assert_eq!(item.categories()[0].name(), "Tech");
    assert_eq!(item.enclosure().unwrap().length(), "10");
    assert_eq!(item.itunes_ext().unwrap().duration(), Some("01:02:03".to_owned()));
    assert_eq!(item.guid().is_none(), true);
    assert_eq!(item.source().is_none(), true);
    assert_eq!(item.comments(), None);
    assert_eq!(item.pub_date(), None);
    assert_eq!(item.link(), None);
}

#[test]
fn channel_skip_hours_in_range() {
    let mut b = channel_base();
    b.skip_hours(vec![6, 7, 8, 14, 22]);
    assert!(b.validate().is_ok());
    let c = b.finalize().unwrap();
    assert_eq!(c.skip_hours(), vec!["6", "7", "8", "14", "22"]);
}

#[test]
fn channel_skip_hours_out_of_range() {
    let mut b = channel_base();
    b.skip_hours(vec![6, 7, 25]);
    assert_eq!(
        b.validate().err().unwrap(),
        "Channel skip_hours: hour out of range 0 to 23: 25"
    );
    b.skip_hours(vec![-1]);
    assert_eq!(
        b.validate().err().unwrap(),
        "Channel skip_hours: hour out of range 0 to 23: -1"
    );
    assert_eq!(b.finalize().err().unwrap(), "Channel skip_hours: Negative value: -1");
}

#[test]
fn channel_skip_days() {
    let mut b = channel_base();
    b.skip_days(vec![
        "Monday".to_owned(),
        "Sunday".to_owned(),
        "Thursday".to_owned(),
        "Wednesday".to_owned(),
    ]);
    assert!(b.validate().is_ok());
    b.skip_days(vec!["Monday".to_owned(), "monday".to_owned()]);
    assert_eq!(
        b.validate().err().unwrap(),
        "Channel skip_days: not a day of the week: monday"
    );
}

#[test]
fn channel_required_fields() {
    let mut b = ChannelBuilder::new();
    assert_eq!(b.validate().err().unwrap(), "Channel title: cannot be empty");
    b.title("Title");
    assert_eq!(b.validate().err().unwrap(), "Channel link: cannot be empty");
    b.link("example");
    assert_eq!(b.validate().err().unwrap(), "Channel link: Invalid URL: example");
    b.link("http://example.com");
    assert_eq!(b.validate().err().unwrap(), "Channel description: cannot be empty");
    b.description("Description").ttl(Some(-60));
    assert_eq!(b.validate().err().unwrap(), "Channel ttl: Negative value: -60");
    assert_eq!(b.finalize().err().unwrap(), "Channel ttl: Negative value: -60");
    b.ttl(Some(60)).pub_date(Some("now".to_owned()));
    assert_eq!(b.validate().err().unwrap(), "Channel pub_date: Invalid RFC 2822 date: now");
    b.pub_date(None).last_build_date(Some("later".to_owned()));
    assert_eq!(
        b.validate().err().unwrap(),
        "Channel last_build_date: Invalid RFC 2822 date: later"
    );
    b.last_build_date(Some("Sun, 13 Mar 2016 20:02:02 -0700".to_owned()));
    assert!(b.validate().is_ok());
    assert_eq!(b.finalize().unwrap().ttl(), Some("60".to_owned()));
}

#[test]
fn channel_round_trip() {
    let item = ItemBuilder::new().title(Some("Episode".to_owned())).finalize().unwrap();
    let cloud = CloudBuilder::new()
        .domain("http://rpc.sys.com/")
        .port(80)
        .finalize()
        .unwrap();
    let owner = ITunesOwnerBuilder::new()
        .name(Some("Host".to_owned()))
        .email(Some("host@example.com".to_owned()))
        .finalize()
        .unwrap();
    let sub = ITunesCategoryBuilder::new().text("Podcasting").finalize().unwrap();
    let cat = ITunesCategoryBuilder::new()
        .text("Technology")
        .subcategory(Some(Box::new(sub)))
        .validate()
        .unwrap()
        .finalize()
        .unwrap();
    let ext = ITunesChannelExtensionBuilder::new()
        .owner(Some(owner))
        .categories(vec![cat])
        .explicit(Some("no".to_owned()))
        .finalize()
        .unwrap();
    let channel = channel_base()
        .language(Some("en".to_owned()))
        .generator(Some("feed".to_owned()))
        .cloud(Some(cloud))
        .items(vec![item])
        .itunes_ext(Some(ext))
        .validate()
        .unwrap()
        .finalize()
        .unwrap();
    assert_eq!(channel.title(), "The Linux Action Show! OGG");
    assert_eq!(channel.link(), "http://www.jupiterbroadcasting.com");
    assert_eq!(channel.language(), Some("en".to_owned()));
    assert_eq!(channel.generator(), Some("feed".to_owned()));
    assert_eq!(channel.cloud().unwrap().port(), "80");
    assert_eq!(channel.items()[0].title(), Some("Episode".to_owned()));
    let ext = channel.itunes_ext().unwrap();
    assert_eq!(ext.owner().unwrap().email(), Some("host@example.com".to_owned()));
    let categories = ext.categories();
    assert_eq!(categories[0].text(), "Technology");
    assert_eq!(categories[0].subcategory().unwrap().text(), "Podcasting");
    assert_eq!(ext.explicit(), Some("no".to_owned()));
    assert_eq!(channel.copyright(), None);
    assert_eq!(channel.ttl(), None);
    assert!(channel.skip_days().is_empty());
}

#[test]
fn channel_defaults() {
    let c = ChannelBuilder::new().finalize().unwrap();
    assert_eq!(c.title(), "");
    assert_eq!(c.link(), "");
    assert_eq!(c.description(), "");
    assert_eq!(c.language(), None);
    assert_eq!(c.pub_date(), None);
    assert_eq!(c.webmaster(), None);
    assert_eq!(c.managing_editor(), None);
    assert_eq!(c.last_build_date(), None);
    assert_eq!(c.docs(), None);
    assert!(c.categories().is_empty());
    assert!(c.image().is_none());
    assert!(c.text_input().is_none());
    assert!(c.skip_hours().is_empty());
    assert!(c.items().is_empty());
    assert!(c.itunes_ext().is_none());
}

#[test]
fn leaf_defaults() {
    let e = EnclosureBuilder::new().finalize().unwrap();
    assert_eq!(e.url(), "");
    assert_eq!(e.length(), "0");
    assert_eq!(e.mime_type(), "");
    let c = CloudBuilder::new().finalize().unwrap();
    assert_eq!(c.port(), "0");
    assert_eq!(c.protocol(), "");
    let i = ImageBuilder::new().finalize().unwrap();
    assert_eq!(i.width(), None);
    assert_eq!(i.height(), None);
    let it = ItemBuilder::new().finalize().unwrap();
    assert_eq!(it.title(), None);
    assert!(it.categories().is_empty());
    let ext = ITunesChannelExtensionBuilder::new().finalize().unwrap();
    assert!(ext.categories().is_empty());
    assert_eq!(ext.author(), None);
}

#[test]
fn itunes_category_requires_text() {
    let mut b = ITunesCategoryBuilder::new();
    assert_eq!(b.validate().err().unwrap(), "ITunesCategory text: cannot be empty");
}

#[test]
fn finalize_twice_gives_equal_values() {
    let mut b = CloudBuilder::new();
    b.domain("http://rpc.sys.com/").port(80).path("/RPC2");
    let c1 = b.finalize().unwrap();
    let c2 = b.finalize().unwrap();
    assert_eq!(c1.domain(), c2.domain());
    assert_eq!(c1.port(), c2.port());
    assert_eq!(c1.path(), c2.path());
    let mut cb = channel_base();
    cb.skip_hours(vec![1, 2]).ttl(Some(5));
    let x = cb.finalize().unwrap();
    let y = cb.finalize().unwrap();
    assert_eq!(x.skip_hours(), y.skip_hours());
    assert_eq!(x.ttl(), y.ttl());
    assert_eq!(x.title(), y.title());
}

#[test]
fn default_matches_new() {
    let d = EnclosureBuilder::default();
    assert_eq!(d.url, "");
    assert_eq!(d.length, 0);
    assert_eq!(d.mime_type, "");
    let s = SourceBuilder::default();
    assert_eq!(s.url, "");
    assert_eq!(s.title, None);
    let c = ChannelBuilder::default();
    assert!(c.skip_hours.is_empty());
    assert_eq!(c.ttl, None);
}
