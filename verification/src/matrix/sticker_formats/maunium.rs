//! Sticker packs for the maunium sticker picker, which replaces the default
//! picker of clients such as Element and SchildiChat. Every sticker carries a
//! thumbnail here: one without a thumbnail of its own shows its picture.

use vstd::prelude::*;
use vstd::string::*;
use super::ponies::MetaData;
use crate::matrix::Mxc;
use crate::text::copy_strings;

verus! {

#[derive(Debug)]
pub struct StickerPack {
    pub title: String,
    pub id: String,
    pub tg_pack: Option<TgPackRootInfo>,
    pub stickers: Vec<Sticker>,
}

/// Information about the Telegram pack which was imported.
#[derive(Debug)]
pub struct TgPackRootInfo {
    pub short_name: String,
    pub hash: String,
}

#[derive(Debug)]
pub struct Sticker {
    pub body: String,
    pub url: Mxc,
    pub info: StickerInfo,
    /// always `m.sticker`
    pub msgtype: String,
    pub id: String,
    pub tg_sticker: Option<TgStickerInfo>,
}

#[derive(Debug)]
pub struct StickerInfo {
    pub image_info: MetaData,
    pub thumbnail_url: Mxc,
    pub thumbnail_info: MetaData,
}

/// Additional information about the Telegram sticker that a sticker came from.
#[derive(Debug)]
pub struct TgStickerInfo {
    pub pack: TgPackInfo,
    pub id: String,
    pub emoticons: Vec<String>,
}

/// Additional information about the Telegram pack in which the sticker was
/// included.
#[derive(Debug)]
pub struct TgPackInfo {
    pub id: String,
    pub short_name: String,
}

/// The id of the Telegram sticker that an imported sticker came from: the id
/// of the bot api, else the id of the client api, else nothing.
pub open spec fn source_id(info: crate::matrix::sticker::TgStickerInfo) -> Seq<char> {
    match info.bot_api_id {
        Some(id) => id@,
        None => match info.client_api_id {
            Some(id) => id@,
            None => Seq::empty(),
        },
    }
}

impl TgStickerInfo {
    /// Whether `self` tells where an imported sticker came from: the pack by
    /// its name and by the id of its import, the Telegram sticker by its id,
    /// and the emoji of the sticker as its labels.
    pub open spec fn tells(self, info: crate::matrix::sticker::TgStickerInfo) -> bool {
        &&& self.pack.short_name == info.pack_name
        &&& self.pack.id@ == "tg_name_"@ + info.pack_name@
        &&& self.id@ == source_id(info)
        &&& self.emoticons@ == info.emoji@
    }

    /// Write down where an imported sticker came from.
    pub fn from_info(info: &crate::matrix::sticker::TgStickerInfo) -> (origin: TgStickerInfo)
        ensures
            origin.tells(*info),
    {
        let id = match &info.bot_api_id {
            Some(id) => id.clone(),
            None => match &info.client_api_id {
                Some(id) => id.clone(),
                None => String::new(),
            },
        };
        TgStickerInfo {
            pack: TgPackInfo {
                id: String::from_str("tg_name_").concat(info.pack_name.as_str()),
                short_name: info.pack_name.clone(),
            },
            id,
            emoticons: copy_strings(&info.emoji),
        }
    }
}

impl Sticker {
    /// Whether the thumbnail of the sticker is its picture: the same url and
    /// the same meta data.
    pub open spec fn shows_picture_as_thumbnail(self) -> bool {
        self.url@.url == self.info.thumbnail_url@.url && self.info.image_info.same_as(
            self.info.thumbnail_info,
        )
    }

    /// Whether `self` is the legacy form of an imported sticker: the picture's
    /// url is also the id, the thumbnail is the sticker's own or, where it has
    /// none, the picture itself, and a sticker that tells where it came from
    /// goes on telling it.
    pub open spec fn is_written_from(self, value: crate::matrix::sticker::Sticker) -> bool {
        &&& self.body == value.body
        &&& self.url@ == value.image.url@
        &&& self.info.image_info == value.image.meta_data
        &&& match value.thumbnail {
            Some(thumb) => self.info.thumbnail_url@ == thumb.url@ && self.info.thumbnail_info
                == thumb.meta_data,
            None => self.info.thumbnail_url@ == value.image.url@ && self.info.thumbnail_info
                == value.image.meta_data,
        }
        &&& self.msgtype@ == "m.sticker"@
        &&& self.id@ == value.image.url@.url
        &&& match value.tg_sticker {
            Some(info) => self.tg_sticker matches Some(origin) && origin.tells(info),
            None => self.tg_sticker is None,
        }
    }

    /// Write an imported sticker in the legacy shape.
    pub fn from_sticker(value: &crate::matrix::sticker::Sticker) -> (sticker: Sticker)
        ensures
            sticker.is_written_from(*value),
    {
        let (thumbnail_url, thumbnail_info) = match &value.thumbnail {
            Some(thumb) => (thumb.url.clone(), thumb.meta_data.clone()),
            None => (value.image.url.clone(), value.image.meta_data.clone()),
        };
        let info = StickerInfo {
            image_info: value.image.meta_data.clone(),
            thumbnail_url,
            thumbnail_info,
        };
        Sticker {
            body: value.body.clone(),
            url: value.image.url.clone(),
            info,
            msgtype: String::from_str("m.sticker"),
            id: value.image.url.url().clone(),
            tg_sticker: match &value.tg_sticker {
                Some(info) => Some(TgStickerInfo::from_info(info)),
                None => None,
            },
        }
    }
}

impl StickerPack {
    /// Whether `self` is the legacy form of an imported pack: every sticker of
    /// the pack, in its order, and the name of the Telegram pack that the pack
    /// came from, if it is known. The hash of that pack is not known.
    pub open spec fn is_written_from(self, value: crate::matrix::stickerpack::StickerPack) -> bool {
        &&& self.title == value.title
        &&& self.id == value.id
        &&& match value.tg_pack {
            Some(info) => self.tg_pack matches Some(root) && root.short_name == info.name
                && root.hash@.len() == 0,
            None => self.tg_pack is None,
        }
        &&& self.stickers@.len() == value.stickers@.len()
        &&& forall|i: int|
            0 <= i < value.stickers@.len() ==> (#[trigger] self.stickers@[i]).is_written_from(
                value.stickers@[i],
            )
    }

    /// Write an imported pack in the legacy shape.
    pub fn from_pack(value: &crate::matrix::stickerpack::StickerPack) -> (pack: StickerPack)
        ensures
            pack.is_written_from(*value),
    {
        let mut stickers: Vec<Sticker> = Vec::new();
        let mut i: usize = 0;
        while i < value.stickers.len()
            invariant
                i <= value.stickers.len(),
                stickers@.len() == i,
                forall|k: int|
                    0 <= k < i ==> (#[trigger] stickers@[k]).is_written_from(value.stickers@[k]),
            decreases value.stickers.len() - i,
        {
            stickers.push(Sticker::from_sticker(&value.stickers[i]));
            i += 1;
        }
        let tg_pack = match &value.tg_pack {
            Some(info) => Some(TgPackRootInfo { short_name: info.name.clone(), hash: String::new() }),
            None => None,
        };
        StickerPack { title: value.title.clone(), id: value.id.clone(), tg_pack, stickers }
    }
}

} // verus!
