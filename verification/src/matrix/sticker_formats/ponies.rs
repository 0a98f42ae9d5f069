//! Sticker packs as MSC2545 describes them, which clients such as Nheko,
//! Cinny and FluffyChat read: a map from a short code to a picture, in the
//! order of the pack.

use indexmap::IndexMap;
use vstd::prelude::*;
use vstd::string::*;
use crate::error::NoMimeType;
use crate::text::{decimal_padded4, zero_padded};

verus! {

#[verifier::external_type_specification]
#[verifier::external_body]
#[verifier::reject_recursive_types(K)]
#[verifier::reject_recursive_types(V)]
#[verifier::reject_recursive_types(S)]
pub struct ExIndexMap<K, V, S>(IndexMap<K, V, S>);

#[derive(Debug)]
pub struct PackInfo {
    pub display_name: String,
    pub avatar_url: Option<String>,
}

pub struct StickerPack {
    pub images: IndexMap<String, Sticker>,
    pub pack: PackInfo,
}

/// What a picture can be used for.
#[derive(Clone, Copy, Debug, PartialEq, Eq, Hash, Structural)]
pub enum Usage {
    Sticker,
    Emoticon,
}

/// The size and kind of a picture.
#[derive(Debug)]
pub struct MetaData {
    pub w: u32,
    pub h: u32,
    pub size: usize,
    pub mimetype: String,
}

impl Clone for MetaData {
    fn clone(&self) -> (copy: MetaData)
        ensures
            copy == *self,
    {
        MetaData { w: self.w, h: self.h, size: self.size, mimetype: self.mimetype.clone() }
    }
}

impl MetaData {
    /// Whether two descriptions say the same.
    pub open spec fn same_as(self, other: MetaData) -> bool {
        self.w == other.w && self.h == other.h && self.size == other.size && self.mimetype@
            == other.mimetype@
    }

    pub fn same(&self, other: &MetaData) -> (same: bool)
        ensures
            same == self.same_as(*other),
    {
        self.w == other.w && self.h == other.h && self.size == other.size && self.mimetype
            == other.mimetype
    }

    /// The meta data of a sticker file: its size in pixels and in bytes, and
    /// the mime type that its name tells. A file whose name has no extension
    /// has no meta data.
    pub fn try_from(value: &crate::image::Image) -> (res: Result<MetaData, NoMimeType>)
        ensures
            match res {
                Ok(meta) => crate::image::mime_type_of(value.file_name@) == Some(meta.mimetype@)
                    && meta.w == value.width && meta.h == value.height && meta.size
                    == value.data@.len(),
                Err(_) => crate::image::mime_type_of(value.file_name@) is None,
            },
            forall|simple: Seq<char>| #[trigger]
                crate::image::names_extension(value.file_name@, simple) ==> (res matches Ok(meta)
                    ==> meta.mimetype@ == crate::image::mime_for(simple)),
    {
        match value.mime_type() {
            Ok(mimetype) => Ok(
                MetaData { w: value.width, h: value.height, size: value.data.len(), mimetype },
            ),
            Err(e) => Err(e),
        }
    }
}

/// One picture of a pack. `usage` holds each use at most once.
#[derive(Debug)]
pub struct Sticker {
    pub body: String,
    pub info: MetaData,
    pub url: String,
    pub usage: Vec<Usage>,
}

/// The uses of a picture: always as a sticker, and as an emoticon too if it has
/// a short code of its own.
pub open spec fn usage_of(value: crate::matrix::sticker::Sticker) -> Seq<Usage> {
    if value.emoticon is Some {
        seq![Usage::Sticker, Usage::Emoticon]
    } else {
        seq![Usage::Sticker]
    }
}

/// The key under which a sticker stands in the pack: its short code, or its
/// position in four digits if it has none.
pub open spec fn key_of(value: crate::matrix::sticker::Sticker, position: nat) -> Seq<char> {
    match value.emoticon {
        Some(code) => code@,
        None => zero_padded(position, 4),
    }
}

impl Sticker {
    /// Whether `self` is the modern form of an imported sticker.
    pub open spec fn is_written_from(self, value: crate::matrix::sticker::Sticker) -> bool {
        &&& self.body == value.body
        &&& self.url@ == value.image.url@.url
        &&& self.info == value.image.meta_data
        &&& self.usage@ == usage_of(value)
    }

    /// Write a sticker of the legacy shape in the modern shape: its text, the
    /// url and meta data of its picture, and its use as a sticker. The
    /// thumbnail and the origin have no place there.
    pub fn from_maunium(value: &super::maunium::Sticker) -> (sticker: Sticker)
        ensures
            sticker.body == value.body,
            sticker.url@ == value.url@.url,
            sticker.info == value.info.image_info,
            sticker.usage@ == seq![Usage::Sticker],
    {
        let read = crate::matrix::sticker::Sticker::from_maunium(value);
        Sticker::from_sticker(&read)
    }

    /// Write an imported sticker in the modern shape.
    pub fn from_sticker(value: &crate::matrix::sticker::Sticker) -> (sticker: Sticker)
        ensures
            sticker.is_written_from(*value),
    {
        let mut usage: Vec<Usage> = Vec::new();
        usage.push(Usage::Sticker);
        if value.emoticon.is_some() {
            usage.push(Usage::Emoticon);
        }
        assert(usage@ =~= usage_of(*value));
        Sticker {
            body: value.body.clone(),
            url: value.image.url.url().clone(),
            info: value.image.meta_data.clone(),
            usage,
        }
    }
}

/// The keys of a pack's pictures, in the order of the pack.
pub uninterp spec fn image_keys(images: IndexMap<String, Sticker>) -> Seq<Seq<char>>;

/// The pictures of a pack, in the order of the pack: the picture at a position
/// belongs to the key at that position.
pub uninterp spec fn image_values(images: IndexMap<String, Sticker>) -> Seq<Sticker>;

/// The keys after `key` was inserted: a key that is there keeps its place, a
/// new one goes to the end.
pub open spec fn keys_with(keys: Seq<Seq<char>>, key: Seq<char>) -> Seq<Seq<char>> {
    if keys.contains(key) {
        keys
    } else {
        keys.push(key)
    }
}

/// The pictures after `value` was inserted under `key`: it replaces the
/// picture of a key that is there, and goes to the end with a new key.
pub open spec fn values_with(
    keys: Seq<Seq<char>>,
    values: Seq<Sticker>,
    key: Seq<char>,
    value: Sticker,
) -> Seq<Sticker> {
    if keys.contains(key) {
        values.update(keys.index_of(key), value)
    } else {
        values.push(value)
    }
}

/// Trusted: calls `IndexMap::new`, which makes a map without entries.
#[verifier::external_body]
fn new_images() -> (images: IndexMap<String, Sticker>)
    ensures
        image_keys(images).len() == 0,
        image_values(images).len() == 0,
{
    IndexMap::new()
}

/// Trusted: calls `IndexMap::insert`. If the key is in the map, it keeps its
/// place and its value is replaced; if not, the pair is added last in order.
/// No key occurs twice, and there are as many values as keys.
#[verifier::external_body]
fn insert_image(images: &mut IndexMap<String, Sticker>, key: String, value: Sticker)
    ensures
        image_keys(*final(images)) == keys_with(image_keys(*old(images)), key@),
        image_values(*final(images)) == values_with(
            image_keys(*old(images)),
            image_values(*old(images)),
            key@,
            value,
        ),
{
    images.insert(key, value);
}

/// The keys of the pack document that is written from the first `count` of
/// these stickers.
pub open spec fn keys_of(stickers: Seq<crate::matrix::sticker::Sticker>, count: nat) -> Seq<
    Seq<char>,
>
    decreases count,
{
    if count == 0 {
        Seq::empty()
    } else {
        let position = (count - 1) as nat;
        keys_with(keys_of(stickers, position), key_of(stickers[position as int], position))
    }
}

/// Whether `values` are the pictures of the pack document that is written from
/// the first `count` of these stickers, each in its modern form.
pub open spec fn values_written(
    values: Seq<Sticker>,
    stickers: Seq<crate::matrix::sticker::Sticker>,
    count: nat,
) -> bool
    decreases count,
{
    if count == 0 {
        values.len() == 0
    } else {
        let position = (count - 1) as nat;
        let keys = keys_of(stickers, position);
        let key = key_of(stickers[position as int], position);
        exists|before: Seq<Sticker>, picture: Sticker|
            #![trigger values_with(keys, before, key, picture)]
            values_written(before, stickers, position) && picture.is_written_from(
                stickers[position as int],
            ) && values == values_with(keys, before, key, picture)
    }
}

impl StickerPack {
    /// Whether `self` is the modern form of an imported pack. The stickers are
    /// inserted in the order of the pack, each under its short code or,
    /// without one, under its position in four digits; a sticker whose key is
    /// taken replaces the picture that stands there. The pack is shown under
    /// its title.
    pub open spec fn is_written_from(self, value: crate::matrix::stickerpack::StickerPack) -> bool {
        &&& self.pack.display_name == value.title
        &&& self.pack.avatar_url is None
        &&& image_keys(self.images) == keys_of(value.stickers@, value.stickers@.len())
        &&& values_written(image_values(self.images), value.stickers@, value.stickers@.len())
    }

    /// Write a pack of the legacy shape in the modern shape: the pack that the
    /// legacy document stands for, in its modern form.
    pub fn from_maunium(value: &super::maunium::StickerPack) -> (pack: StickerPack)
        ensures
            exists|read: crate::matrix::stickerpack::StickerPack|
                read.is_read_from(*value) && #[trigger] pack.is_written_from(read),
    {
        let read = crate::matrix::stickerpack::StickerPack::from_maunium(value);
        StickerPack::from_pack(&read)
    }

    /// Write an imported pack in the modern shape.
    pub fn from_pack(value: &crate::matrix::stickerpack::StickerPack) -> (pack: StickerPack)
        ensures
            pack.is_written_from(*value),
    {
        let mut images = new_images();
        let mut i: usize = 0;
        assert(image_keys(images) =~= keys_of(value.stickers@, 0));
        while i < value.stickers.len()
            invariant
                i <= value.stickers.len(),
                image_keys(images) == keys_of(value.stickers@, i as nat),
                values_written(image_values(images), value.stickers@, i as nat),
            decreases value.stickers.len() - i,
        {
            let sticker = &value.stickers[i];
            let key = match &sticker.emoticon {
                Some(code) => code.clone(),
                None => decimal_padded4(i),
            };
            let picture = Sticker::from_sticker(sticker);
            let ghost before = image_values(images);
            let ghost keys = image_keys(images);
            insert_image(&mut images, key, picture);
            i += 1;
            proof {
                assert(key@ == key_of(value.stickers@[i - 1], (i - 1) as nat));
                assert(image_values(images) == values_with(keys, before, key@, picture));
            }
        }
        StickerPack {
            images,
            pack: PackInfo { display_name: value.title.clone(), avatar_url: None },
        }
    }
}

} // verus!
