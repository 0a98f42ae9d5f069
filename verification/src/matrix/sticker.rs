//! One sticker in its Matrix form, from which the pack documents are made.

use vstd::prelude::*;
use vstd::string::*;
use super::sticker_formats::maunium;
use super::sticker_formats::ponies::MetaData;
use super::Mxc;
use crate::text::{copy_optional, copy_strings};

verus! {

/// A sticker that was imported: its picture, its thumbnail if it has one of
/// its own, and where it came from.
#[derive(Debug)]
pub struct Sticker {
    pub body: String,
    pub image: Image,
    pub thumbnail: Option<Image>,
    /// abbreviation for the sticker, to be used inline
    pub emoticon: Option<String>,
    /// unicode emoji which are associated with the sticker
    pub emoji: Vec<String>,
    pub tg_sticker: Option<TgStickerInfo>,
}

/// Matrix image struct, containing url and meta data.
#[derive(Debug)]
pub struct Image {
    pub url: Mxc,
    pub meta_data: MetaData,
}

impl Image {
    /// Whether two images are the same: the same url and the same meta data.
    pub open spec fn same_as(self, other: Image) -> bool {
        self.url@.url == other.url@.url && self.meta_data.same_as(other.meta_data)
    }

    pub fn same(&self, other: &Image) -> (same: bool)
        ensures
            same == self.same_as(*other),
    {
        self.url.same_url(&other.url) && self.meta_data.same(&other.meta_data)
    }
}

/// Info about the Telegram sticker that a sticker came from.
#[derive(Debug)]
pub struct TgStickerInfo {
    /// pack where the sticker is from
    pub pack_name: String,
    pub bot_api_id: Option<String>,
    pub client_api_id: Option<String>,
    pub emoji: Vec<String>,
    /// position of the sticker in its pack
    pub index: Option<usize>,
}

impl TgStickerInfo {
    /// What a pack document of the legacy shape tells about the origin of a
    /// sticker.
    pub fn from_maunium(value: &maunium::TgStickerInfo) -> (info: TgStickerInfo)
        ensures
            info.pack_name == value.pack.short_name,
            info.bot_api_id is None,
            info.client_api_id == Some(value.id),
            info.emoji@ == value.emoticons@,
            info.index is None,
    {
        TgStickerInfo {
            pack_name: value.pack.short_name.clone(),
            bot_api_id: None,
            client_api_id: Some(value.id.clone()),
            emoji: copy_strings(&value.emoticons),
            index: None,
        }
    }
}

impl Sticker {
    /// Whether `self` is what a sticker of the legacy shape stands for: the
    /// thumbnail is kept only where it differs from the picture, and the emoji
    /// are those of the origin block.
    pub open spec fn is_read_from(self, value: maunium::Sticker) -> bool {
        &&& self.body == value.body
        &&& self.image.url@ == value.url@
        &&& self.image.meta_data == value.info.image_info
        &&& value.shows_picture_as_thumbnail() ==> self.thumbnail is None
        &&& !value.shows_picture_as_thumbnail() ==> (self.thumbnail matches Some(thumb)
            && thumb.url@ == value.info.thumbnail_url@ && thumb.meta_data
            == value.info.thumbnail_info)
        &&& self.emoticon is None
        &&& match value.tg_sticker {
            Some(origin) => self.tg_sticker matches Some(info) && info.pack_name
                == origin.pack.short_name && info.bot_api_id is None && info.client_api_id == Some(
                origin.id,
            ) && info.emoji@ == origin.emoticons@ && info.index is None && self.emoji@
                == origin.emoticons@,
            None => self.tg_sticker is None && self.emoji@.len() == 0,
        }
    }

    /// Read a sticker of the legacy shape.
    pub fn from_maunium(value: &maunium::Sticker) -> (sticker: Sticker)
        ensures
            sticker.is_read_from(*value),
    {
        let image = Image { url: value.url.clone(), meta_data: value.info.image_info.clone() };
        let thumbnail = Image {
            url: value.info.thumbnail_url.clone(),
            meta_data: value.info.thumbnail_info.clone(),
        };
        let thumbnail = if image.same(&thumbnail) {
            None
        } else {
            Some(thumbnail)
        };
        let (tg_sticker, emoji) = match &value.tg_sticker {
            Some(origin) => (
                Some(TgStickerInfo::from_maunium(origin)),
                copy_strings(&origin.emoticons),
            ),
            None => (None, Vec::new()),
        };
        Sticker {
            body: value.body.clone(),
            image,
            thumbnail,
            emoticon: None,
            emoji,
            tg_sticker,
        }
    }

    /// The label of a sticker, if it has one.
    pub fn label(&self) -> (label: Option<String>)
        ensures
            label == self.emoticon,
    {
        copy_optional(&self.emoticon)
    }
}

/// A sticker that is written in the legacy shape and read again is the same
/// sticker in what that shape holds: its text and picture, and where it came
/// from, by the name of the pack, the id of the Telegram sticker and the
/// emoji. A sticker that does not tell where it came from is read without an
/// origin.
pub proof fn lemma_legacy_keeps_origin(value: Sticker, written: maunium::Sticker, read: Sticker)
    requires
        written.is_written_from(value),
        read.is_read_from(written),
    ensures
        read.body == value.body,
        read.image.url@ == value.image.url@,
        read.image.meta_data == value.image.meta_data,
        match value.tg_sticker {
            Some(info) => read.tg_sticker matches Some(back) && back.pack_name == info.pack_name
                && back.emoji@ == info.emoji@ && read.emoji@ == info.emoji@ && (
            back.client_api_id matches Some(id) && id@ == maunium::source_id(info)),
            None => read.tg_sticker is None && read.emoji@.len() == 0,
        },
{
}

} // verus!
