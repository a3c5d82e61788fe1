//! Builders that check and assemble the elements of an RSS feed, and the
//! records that they produce.
pub mod category;
pub mod channel;
pub mod cloud;
pub mod enclosure;
pub mod guid;
pub mod image;
pub mod item;
pub mod itunes;
pub mod laws;
pub mod source;
pub mod text_input;
pub mod utils;

pub use category::{Category, CategoryBuilder};
pub use channel::{Channel, ChannelBuilder};
pub use cloud::{Cloud, CloudBuilder};
pub use enclosure::{Enclosure, EnclosureBuilder};
pub use guid::{Guid, GuidBuilder};
pub use image::{Image, ImageBuilder};
pub use item::{Item, ItemBuilder};
pub use itunes::{
    ITunesCategory, ITunesCategoryBuilder, ITunesChannelExtension, ITunesChannelExtensionBuilder,
    ITunesItemExtension, ITunesItemExtensionBuilder, ITunesOwner, ITunesOwnerBuilder,
};
pub use source::{Source, SourceBuilder};
pub use text_input::{TextInput, TextInputBuilder};
