//! The widget that puts a sticker picker into a Matrix client, and the pack
//! document that the picker reads.

use vstd::prelude::*;
use vstd::string::*;

verus! {

/// The account data that enables a sticker picker widget.
#[derive(Debug)]
pub struct StickerWidget {
    pub content: Content,
    pub sender: String,
    pub state_key: String,
    pub stype: String,
    pub id: String,
}

/// The description of the widget itself.
#[derive(Debug)]
pub struct Content {
    pub stype: String,
    pub url: String,
    pub name: String,
    pub data: String,
}

impl StickerWidget {
    /// The widget of the sticker picker at `url`, set up by `sender`.
    pub fn new(url: String, sender: String) -> (widget: StickerWidget)
        ensures
            widget.content.stype@ == "m.stickerpicker"@,
            widget.content.url == url,
            widget.content.name@ == "Stickerpicker"@,
            widget.content.data@ == ""@,
            widget.sender == sender,
            widget.state_key@ == "stickerpicker"@,
            widget.stype@ == "m.widget"@,
            widget.id@ == "stickerpicker"@,
    {
        let content = Content {
            stype: String::from_str("m.stickerpicker"),
            url,
            name: String::from_str("Stickerpicker"),
            data: String::from_str(""),
        };
        StickerWidget {
            content,
            sender,
            state_key: String::from_str("stickerpicker"),
            stype: String::from_str("m.widget"),
            id: String::from_str("stickerpicker"),
        }
    }
}

/// A pack document of the sticker picker.
#[derive(Debug)]
pub struct StickerPack {
    pub title: String,
    pub id: String,
    pub tg_pack: TgPack,
    pub stickers: Vec<Sticker>,
}

/// The Telegram pack that a document was imported from.
#[derive(Debug)]
pub struct TgPack {
    pub short_name: String,
    pub hash: String,
}

/// The message type of every sticker.
pub fn default_msgtype() -> (msgtype: String)
    ensures
        msgtype@ == "m.sticker"@,
{
    String::from_str("m.sticker")
}

#[derive(Debug)]
pub struct Sticker {
    pub body: String,
    pub url: String,
    pub info: StickerInfo,
    pub msgtype: String,
    pub id: String,
    pub tg_sticker: TgSticker,
}

/// The size and kind of a picture.
#[derive(Debug)]
pub struct Metadata {
    pub w: u32,
    pub h: u32,
    pub size: usize,
    pub mimetype: String,
}

impl Clone for Metadata {
    fn clone(&self) -> (copy: Metadata)
        ensures
            copy == *self,
    {
        Metadata { w: self.w, h: self.h, size: self.size, mimetype: self.mimetype.clone() }
    }
}

#[derive(Debug)]
pub struct StickerInfo {
    pub metadata: Metadata,
    pub thumbnail_url: String,
    pub thumbnail_info: Metadata,
}

/// The Telegram sticker that a sticker was imported from.
#[derive(Debug)]
pub struct TgSticker {
    pub pack: TgStickerPack,
    pub id: String,
    pub emoticons: Vec<String>,
}

#[derive(Debug)]
pub struct TgStickerPack {
    pub id: String,
    pub short_name: String,
}

/// A side of a picture in units of 256 pixels, rounded to the nearest whole
/// number, halves up.
pub open spec fn side_units(side: u32) -> int {
    (side + 128) / 256
}

/// The number by which the sides of a picture are divided for the picker: the
/// larger of its two sides in units of 256 pixels.
pub open spec fn scale_divisor(width: u32, height: u32) -> int {
    if side_units(width) >= side_units(height) {
        side_units(width)
    } else {
        side_units(height)
    }
}

/// The divisor of a picture of this size.
pub fn divisor(width: u32, height: u32) -> (d: u32)
    ensures
        d == scale_divisor(width, height),
{
    let w: u32 = width / 256 + (if width % 256 >= 128 {
        1u32
    } else {
        0u32
    });
    let h: u32 = height / 256 + (if height % 256 >= 128 {
        1u32
    } else {
        0u32
    });
    if w >= h {
        w
    } else {
        h
    }
}

impl Sticker {
    /// Whether `self` is the entry that the picker gets for an uploaded
    /// sticker of the pack `pack_name`: the picture scaled down by its
    /// divisor, which is its own thumbnail, and the file id it came from.
    pub open spec fn is_entry_of(
        self,
        sticker: crate::sub_commands::import::Sticker,
        pack_name: Seq<char>,
    ) -> bool {
        let d = scale_divisor(sticker.width, sticker.height);
        &&& self.body@ == sticker.emoji@
        &&& self.url@ == sticker.mxc_url@
        &&& self.info.metadata.w == sticker.width as int / d
        &&& self.info.metadata.h == sticker.height as int / d
        &&& self.info.metadata.size == sticker.file_size
        &&& self.info.metadata.mimetype@ == sticker.mimetype@
        &&& self.info.thumbnail_url@ == sticker.mxc_url@
        &&& self.info.thumbnail_info == self.info.metadata
        &&& self.msgtype@ == "m.sticker"@
        &&& self.id@ == "tg_file_id_"@ + sticker.file_id@
        &&& self.tg_sticker.pack.id@ == "tg_file_id_"@ + sticker.file_id@
        &&& self.tg_sticker.pack.short_name@ == pack_name
        &&& self.tg_sticker.id@ == sticker.file_id@
        &&& self.tg_sticker.emoticons@.len() == 1
        &&& self.tg_sticker.emoticons@[0]@ == sticker.emoji@
    }

    /// The entry of an uploaded sticker. The picture has to be large enough to
    /// have a divisor: one of its sides at least 128 pixels.
    pub fn new(sticker: &crate::sub_commands::import::Sticker, pack_name: &String) -> (entry:
        Sticker)
        requires
            scale_divisor(sticker.width, sticker.height) > 0,
        ensures
            entry.is_entry_of(*sticker, pack_name@),
    {
        let d = divisor(sticker.width, sticker.height);
        let metadata = Metadata {
            w: sticker.width / d,
            h: sticker.height / d,
            size: sticker.file_size,
            mimetype: sticker.mimetype.clone(),
        };
        let id = String::from_str("tg_file_id_").concat(sticker.file_id.as_str());
        let mut emoticons: Vec<String> = Vec::new();
        emoticons.push(sticker.emoji.clone());
        Sticker {
            body: sticker.emoji.clone(),
            url: sticker.mxc_url.clone(),
            info: StickerInfo {
                metadata: metadata.clone(),
                thumbnail_url: sticker.mxc_url.clone(),
                thumbnail_info: metadata,
            },
            msgtype: default_msgtype(),
            id: id.clone(),
            tg_sticker: TgSticker {
                pack: TgStickerPack { id, short_name: pack_name.clone() },
                id: sticker.file_id.clone(),
                emoticons,
            },
        }
    }
}

impl StickerPack {
    /// The pack document of the picker for a Telegram pack and the stickers of
    /// it that were uploaded, in their order. Every picture has to be large
    /// enough to have a divisor.
    pub fn new(
        tg_pack: &crate::tg::stickerpack::StickerPack,
        stickers: &Vec<crate::sub_commands::import::Sticker>,
    ) -> (pack: StickerPack)
        requires
            forall|i: int|
                0 <= i < stickers@.len() ==> scale_divisor(
                    (#[trigger] stickers@[i]).width,
                    stickers@[i].height,
                ) > 0,
        ensures
            pack.title@ == tg_pack.title@,
            pack.id@ == "tg_name_"@ + tg_pack.name@,
            pack.tg_pack.short_name@ == tg_pack.name@,
            pack.tg_pack.hash@ == "unimplemented!"@,
            pack.stickers@.len() == stickers@.len(),
            forall|i: int|
                0 <= i < stickers@.len() ==> (#[trigger] pack.stickers@[i]).is_entry_of(
                    stickers@[i],
                    tg_pack.name@,
                ),
    {
        let mut entries: Vec<Sticker> = Vec::new();
        let mut i: usize = 0;
        while i < stickers.len()
            invariant
                i <= stickers.len(),
                entries@.len() == i,
                forall|k: int|
                    0 <= k < stickers@.len() ==> scale_divisor(
                        (#[trigger] stickers@[k]).width,
                        stickers@[k].height,
                    ) > 0,
                forall|k: int|
                    0 <= k < i ==> (#[trigger] entries@[k]).is_entry_of(
                        stickers@[k],
                        tg_pack.name@,
                    ),
            decreases stickers.len() - i,
        {
            entries.push(Sticker::new(&stickers[i], &tg_pack.name));
            i += 1;
        }
        StickerPack {
            title: tg_pack.title.clone(),
            id: String::from_str("tg_name_").concat(tg_pack.name.as_str()),
            tg_pack: TgPack {
                short_name: tg_pack.name.clone(),
                hash: String::from_str("unimplemented!"),
            },
            stickers: entries,
        }
    }
}

} // verus!
