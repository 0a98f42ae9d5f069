//! A sticker pack in its Matrix form.

use vstd::prelude::*;
use vstd::string::*;
use super::sticker::Sticker;
use super::sticker_formats::maunium;

verus! {

/// Additional information about the Telegram pack that a pack came from.
#[derive(Debug)]
pub struct TgPackInfo {
    pub name: String,
    pub title: String,
}

impl TgPackInfo {
    /// What a pack document of the legacy shape tells about the pack it was
    /// imported from: only its name, which also serves as the title.
    pub fn from_maunium(value: &maunium::TgPackRootInfo) -> (info: TgPackInfo)
        ensures
            info.name == value.short_name,
            info.title == value.short_name,
    {
        TgPackInfo { name: value.short_name.clone(), title: value.short_name.clone() }
    }
}

/// An imported pack: its stickers in the order of the pack they came from.
#[derive(Debug)]
pub struct StickerPack {
    pub title: String,
    /// unique id
    pub id: String,
    pub tg_pack: Option<TgPackInfo>,
    pub stickers: Vec<Sticker>,
}

impl StickerPack {
    /// Whether the pack holds no sticker at all. Such a pack is reported, not
    /// written.
    pub fn is_empty(&self) -> (empty: bool)
        ensures
            empty == (self.stickers@.len() == 0),
    {
        self.stickers.len() == 0
    }

    /// Whether `self` is what a pack document of the legacy shape stands for:
    /// every sticker of the document, in its order.
    pub open spec fn is_read_from(self, value: maunium::StickerPack) -> bool {
        &&& self.title == value.title
        &&& self.id == value.id
        &&& match value.tg_pack {
            Some(root) => self.tg_pack matches Some(info) && info.name == root.short_name
                && info.title == root.short_name,
            None => self.tg_pack is None,
        }
        &&& self.stickers@.len() == value.stickers@.len()
        &&& forall|i: int|
            0 <= i < value.stickers@.len() ==> (#[trigger] self.stickers@[i]).is_read_from(
                value.stickers@[i],
            )
    }

    /// Read a pack of the legacy shape.
    pub fn from_maunium(value: &maunium::StickerPack) -> (pack: StickerPack)
        ensures
            pack.is_read_from(*value),
    {
        let mut stickers: Vec<Sticker> = Vec::new();
        let mut i: usize = 0;
        while i < value.stickers.len()
            invariant
                i <= value.stickers.len(),
                stickers@.len() == i,
                forall|k: int|
                    0 <= k < i ==> (#[trigger] stickers@[k]).is_read_from(value.stickers@[k]),
            decreases value.stickers.len() - i,
        {
            stickers.push(Sticker::from_maunium(&value.stickers[i]));
            i += 1;
        }
        let tg_pack = match &value.tg_pack {
            Some(root) => Some(TgPackInfo::from_maunium(root)),
            None => None,
        };
        StickerPack { title: value.title.clone(), id: value.id.clone(), tg_pack, stickers }
    }
}

/// A pack that is written in the legacy shape and read again has its title,
/// its id and as many stickers as before, and still names the Telegram pack
/// that it came from.
pub proof fn lemma_legacy_keeps_pack(value: StickerPack, written: maunium::StickerPack, read: StickerPack)
    requires
        written.is_written_from(value),
        read.is_read_from(written),
    ensures
        read.title == value.title,
        read.id == value.id,
        read.stickers@.len() == value.stickers@.len(),
        match value.tg_pack {
            Some(info) => read.tg_pack matches Some(back) && back.name == info.name,
            None => read.tg_pack is None,
        },
{
}

} // verus!
