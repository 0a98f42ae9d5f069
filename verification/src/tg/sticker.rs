//! A Telegram sticker and the import of its files.

use vstd::prelude::*;
use vstd::string::*;
use super::stickerpack::ImportOutcome;
use super::{pending_conversion, ImportConfig, Pending, StickerFile};
use crate::database::{sha512, Database};
use crate::error::Error;
use crate::image::{
    dry_run_url, encoded_as_webp, gzip_decoded, is_lottie, is_tgs, is_webm, known_url,
    mime_type_of, rendered_as, save_path_of, unpacked, Image, ImageView, Rendered, UploadPlan,
};
use crate::matrix::sticker_formats::ponies::MetaData;
use crate::matrix::{Mxc, MxcView};
use crate::text::copy_optional;

verus! {

/// One size of a picture; see <https://core.telegram.org/bots/api#photosize>.
#[derive(Debug)]
pub struct PhotoSize {
    /// Identifier for this file, which can be used to download or reuse the file.
    pub file_id: String,
    /// Unique identifier for this file, which is supposed to be the same over
    /// time and for different bots.
    pub file_unique_id: String,
    /// Sticker width
    pub width: u32,
    /// Sticker height
    pub height: u32,
}

impl Clone for PhotoSize {
    fn clone(&self) -> (copy: PhotoSize)
        ensures
            copy == *self,
    {
        PhotoSize {
            file_id: self.file_id.clone(),
            file_unique_id: self.file_unique_id.clone(),
            width: self.width,
            height: self.height,
        }
    }
}

/// How a file came to its Matrix url.
#[derive(Debug)]
pub enum ImportedUrl {
    /// Nothing was uploaded: a dry run.
    DryRun,
    /// The store knew the file.
    Reused(Mxc),
    /// The file was uploaded now.
    Uploaded(Mxc),
}

/// The Matrix url of an imported file with these bytes. A dry run gives the
/// stand-in url. A file that was uploaded now, or in a dry run not at all,
/// keeps its bytes at hand.
pub open spec fn imported_url(url: ImportedUrl, data: Seq<u8>) -> MxcView {
    match url {
        ImportedUrl::DryRun => MxcView { url: dry_run_url(), data: Some(data) },
        ImportedUrl::Reused(mxc) => mxc@,
        ImportedUrl::Uploaded(mxc) => MxcView { url: mxc@.url, data: Some(data) },
    }
}

impl PhotoSize {
    /// The image of this picture, once Telegram has told where the file is and
    /// the file was downloaded. The image goes by the path of the file and has
    /// the size of the picture. A failure of either request is the failure of
    /// the download.
    pub fn download(&self, file: Result<StickerFile, Error>, data: Result<Vec<u8>, Error>) -> (res:
        Result<Image, Error>)
        ensures
            match file {
                Err(e) => res == Err::<Image, Error>(e),
                Ok(f) => match data {
                    Err(e) => res == Err::<Image, Error>(e),
                    Ok(bytes) => res == Ok::<Image, Error>(
                        Image {
                            file_name: f.file_path,
                            data: bytes,
                            width: self.width,
                            height: self.height,
                        },
                    ),
                },
            },
    {
        let file = match file {
            Ok(f) => f,
            Err(e) => {
                return Err(e);
            },
        };
        match data {
            Ok(bytes) => Ok(
                Image {
                    file_name: file.file_path,
                    data: bytes,
                    width: self.width,
                    height: self.height,
                },
            ),
            Err(e) => Err(e),
        }
    }

    /// The picture of the pack document that an imported file becomes: its
    /// Matrix url and the meta data of the file as it is now, after every
    /// conversion. A file whose name has no extension fails.
    pub fn picture(image: Image, url: ImportedUrl) -> (res: Result<
        crate::matrix::sticker::Image,
        Error,
    >)
        ensures
            match mime_type_of(image.file_name@) {
                Some(mime) => res matches Ok(picture) && picture.url@ == imported_url(
                    url,
                    image.data@,
                ) && picture.meta_data.mimetype@ == mime && picture.meta_data.w == image.width
                    && picture.meta_data.h == image.height && picture.meta_data.size
                    == image.data@.len(),
                None => res matches Err(Error::NoMimeType(_)),
            },
    {
        let meta_data = match MetaData::try_from(&image) {
            Ok(meta_data) => meta_data,
            Err(e) => {
                return Err(Error::NoMimeType(e));
            },
        };
        let mxc = match url {
            ImportedUrl::DryRun => Mxc::new(String::from_str("!!! DRY_RUN !!!"), Some(image.data)),
            ImportedUrl::Reused(mxc) => mxc,
            ImportedUrl::Uploaded(mxc) => mxc.with_data(image.data),
        };
        Ok(crate::matrix::sticker::Image { url: mxc, meta_data })
    }
}

/// A sticker of a Telegram pack.
#[derive(Debug)]
pub struct Sticker {
    /// Emoji associated with the sticker.
    pub emoji: Option<String>,
    /// The file of the sticker.
    pub image: PhotoSize,
    pub thumbnail: Option<PhotoSize>,
    /// Position in the sticker pack
    pub positon: usize,
    pub pack_name: String,
    /// True if the sticker is animated.
    pub is_animated: bool,
    /// True if the sticker is a video sticker.
    pub is_video: bool,
}

/// The emoji of a sticker as a list: one entry, or none.
pub open spec fn emoji_list(emoji: Option<String>) -> Seq<String> {
    match emoji {
        Some(e) => seq![e],
        None => Seq::empty(),
    }
}

/// The text of a sticker: its emoji, or nothing.
pub open spec fn emoji_text(emoji: Option<String>) -> Seq<char> {
    match emoji {
        Some(e) => e@,
        None => Seq::empty(),
    }
}

impl Sticker {
    /// Whether the sticker is left out of the import: a video that is not to
    /// be converted. This is no failure of the sticker.
    pub fn is_filtered(&self, config: &ImportConfig) -> (filtered: bool)
        ensures
            filtered == (self.is_video && config.keep_webm),
    {
        self.is_video && config.keep_webm
    }

    /// Whether the thumbnail of the sticker is imported: only if it has one,
    /// and only once its picture is imported. A sticker whose picture failed
    /// has failed; its thumbnail is not asked for.
    pub fn wants_thumbnail(&self, picture_ok: bool) -> (wanted: bool)
        ensures
            wanted == (picture_ok && self.thumbnail is Some),
    {
        picture_ok && self.thumbnail.is_some()
    }

    /// The emoji of the sticker as a list.
    pub fn emoji_list(&self) -> (list: Vec<String>)
        ensures
            list@ == emoji_list(self.emoji),
    {
        let mut list: Vec<String> = Vec::new();
        match &self.emoji {
            Some(e) => {
                list.push(e.clone());
                assert(list@ =~= emoji_list(self.emoji));
            },
            None => {},
        }
        list
    }

    /// Whether `sticker` is this sticker as it is imported with this picture
    /// and thumbnail: its text and emoji are the sticker's emoji, and it tells
    /// the pack, the file id and the position it came from.
    pub open spec fn is_imported_as(
        &self,
        sticker: crate::matrix::sticker::Sticker,
        image: crate::matrix::sticker::Image,
        thumbnail: Option<crate::matrix::sticker::Image>,
    ) -> bool {
        &&& sticker.body@ == emoji_text(self.emoji)
        &&& sticker.image == image
        &&& sticker.thumbnail == thumbnail
        &&& sticker.emoji@ == emoji_list(self.emoji)
        &&& sticker.emoticon is None
        &&& sticker.tg_sticker matches Some(info) && info.bot_api_id == Some(self.image.file_id)
            && info.client_api_id is None && info.emoji@ == emoji_list(self.emoji)
            && info.pack_name == self.pack_name && info.index == Some(self.positon)
    }

    /// The imported sticker, made of its imported picture and thumbnail. It
    /// tells where it came from: the pack, the file id, the emoji and the
    /// position in the pack.
    pub fn import(
        &self,
        image: crate::matrix::sticker::Image,
        thumbnail: Option<crate::matrix::sticker::Image>,
    ) -> (sticker: crate::matrix::sticker::Sticker)
        ensures
            self.is_imported_as(sticker, image, thumbnail),
    {
        let tg_info = crate::matrix::sticker::TgStickerInfo {
            bot_api_id: Some(self.image.file_id.clone()),
            client_api_id: None,
            emoji: self.emoji_list(),
            pack_name: self.pack_name.clone(),
            index: Some(self.positon),
        };
        let body = match &self.emoji {
            Some(e) => e.clone(),
            None => String::new(),
        };
        crate::matrix::sticker::Sticker {
            body,
            image,
            thumbnail,
            emoji: self.emoji_list(),
            emoticon: None,
            tg_sticker: Some(tg_info),
        }
    }

    /// The same sticker at a position of a pack.
    pub fn placed(&self, pack_name: &String, positon: usize) -> (sticker: Sticker)
        ensures
            sticker == (Sticker { pack_name: *pack_name, positon, ..*self }),
    {
        Sticker {
            emoji: copy_optional(&self.emoji),
            image: self.image.clone(),
            thumbnail: match &self.thumbnail {
                Some(t) => Some(t.clone()),
                None => None,
            },
            positon,
            pack_name: pack_name.clone(),
            is_animated: self.is_animated,
            is_video: self.is_video,
        }
    }
}

/// Where the import of one file stands.
#[derive(Debug)]
pub enum ImportState {
    /// Nothing has happened yet.
    Start,
    /// The file is asked for at Telegram.
    Downloading,
    /// A converter works on the image.
    Converting { image: Image, conversion: Pending },
    /// The image is written to disk, at `path`.
    Saving { image: Image, path: String },
    /// The image is sent to Matrix.
    Uploading { image: Image, mime_type: String, hash: crate::database::Hash },
    /// The record of the upload is written to the log of the store.
    Recording { image: Image, mxc: Mxc, hash: crate::database::Hash },
    /// The import has ended, with the picture for the pack or with an error.
    Done(Result<crate::matrix::sticker::Image, Error>),
}

/// What has happened to the file since the last step.
#[derive(Debug)]
pub enum ImportEvent {
    Begin,
    /// Telegram has told where the file is, and the file was fetched.
    Downloaded { file: Result<StickerFile, Error>, data: Result<Vec<u8>, Error> },
    /// The converter has ended.
    Converted(Result<Rendered, Error>),
    /// The image was written to disk, or could not be.
    Saved(Result<(), String>),
    /// Matrix has answered the upload.
    Uploaded(Result<Mxc, Error>),
    /// The record was written to the log, or could not be.
    Appended(Result<(), String>),
}

/// What the caller has to do for a file in a state.
#[derive(Clone, Copy, Debug, PartialEq, Eq, Structural)]
pub enum ImportAction {
    Begin,
    Download,
    Render(crate::image::AnimationFormat),
    Encode,
    Save,
    Upload,
    Append,
    Finish,
}

/// The settings of an import, the store of uploaded files if there is one,
/// and the failures of the store's log, which cost no sticker.
pub struct Importer<D: Database> {
    pub config: ImportConfig,
    pub database: Option<D>,
    pub degraded: Vec<String>,
}

/// Whether `next` is the end of the import of `image` under `url`: the picture
/// with this url and the meta data of the image, or the failure of an image
/// whose name tells no mime type.
pub open spec fn ends_with(next: ImportState, image: ImageView, url: MxcView) -> bool {
    match mime_type_of(image.file_name) {
        Some(mime) => next matches ImportState::Done(Ok(picture)) && picture.url@ == url
            && picture.meta_data.mimetype@ == mime && picture.meta_data.w == image.width
            && picture.meta_data.h == image.height && picture.meta_data.size == image.data.len(),
        None => next matches ImportState::Done(Err(Error::NoMimeType(_))),
    }
}

/// Whether `next` is the state of `image` once it is ready for Matrix.
///
/// In a dry run it ends with the stand-in url and its own data, without an
/// upload. With a store that knows its hash it ends with the url of the
/// store, without an upload. Otherwise it is uploaded under the mime type of
/// its name.
pub open spec fn ready_to(
    config: ImportConfig,
    index: Option<Map<Seq<u8>, Seq<char>>>,
    image: ImageView,
    next: ImportState,
) -> bool {
    if config.dry_run {
        ends_with(next, image, MxcView { url: dry_run_url(), data: Some(image.data) })
    } else {
        match known_url(index, sha512(image.data)) {
            Some(url) => ends_with(next, image, MxcView { url, data: None }),
            None => match mime_type_of(image.file_name) {
                Some(mime) => next matches ImportState::Uploading { image: kept, mime_type, hash }
                    && kept@ == image && mime_type@ == mime && hash@ == sha512(image.data),
                None => next matches ImportState::Done(Err(Error::NoMimeType(_))),
            },
        }
    }
}

/// Whether `next` is the state into which `image` settles, as it is now.
///
/// A format whose converter is missing fails. An image that needs a
/// conversion waits for it. An image that needs none is saved first, if files
/// are saved, and fails if it has no file name to be saved by; else it is
/// ready for Matrix.
pub open spec fn settles_to(
    config: ImportConfig,
    index: Option<Map<Seq<u8>, Seq<char>>>,
    pack_name: Seq<char>,
    image: ImageView,
    next: ImportState,
) -> bool {
    match pending_conversion(config, image.file_name) {
        Err(format) => next == ImportState::Done(Err(Error::UnsupportedFormat(format))),
        Ok(Pending::Nothing) => if config.save_to_disk {
            match save_path_of(pack_name, image.file_name) {
                Some(place) => next matches ImportState::Saving { image: kept, path } && kept@
                    == image && path@ == place,
                None => next matches ImportState::Done(Err(Error::IoError(_))),
            }
        } else {
            ready_to(config, index, image, next)
        },
        Ok(conversion) => next matches ImportState::Converting { image: kept, conversion: asked }
            && kept@ == image && asked == conversion,
    }
}

/// Whether `next` follows the download of `image`: a packed animation is
/// unpacked first, and fails if it cannot be; then the image settles.
pub open spec fn follows_download(
    config: ImportConfig,
    index: Option<Map<Seq<u8>, Seq<char>>>,
    pack_name: Seq<char>,
    image: ImageView,
    next: ImportState,
) -> bool {
    if is_tgs(image.file_name) {
        match gzip_decoded(image.data) {
            Some(output) => settles_to(config, index, pack_name, unpacked(image, output), next),
            None => next matches ImportState::Done(Err(Error::IoError(_))),
        }
    } else {
        settles_to(config, index, pack_name, image, next)
    }
}

/// Whether `next` follows the end of a conversion of `image`: the failure of
/// the converter is the failure of the import; the converted image settles
/// anew. An image of another format than the converter's is left as it is.
pub open spec fn follows_conversion(
    config: ImportConfig,
    index: Option<Map<Seq<u8>, Seq<char>>>,
    pack_name: Seq<char>,
    image: ImageView,
    conversion: Pending,
    rendered: Result<Rendered, Error>,
    next: ImportState,
) -> bool {
    let applies = match conversion {
        Pending::Lottie(_) => is_lottie(image.file_name),
        Pending::Webm => is_webm(image.file_name),
        Pending::Nothing => false,
    };
    if !applies {
        settles_to(config, index, pack_name, image, next)
    } else {
        match rendered {
            Err(error) => next == ImportState::Done(Err(error)),
            Ok(out) => settles_to(
                config,
                index,
                pack_name,
                match conversion {
                    Pending::Lottie(format) => rendered_as(image, format, out),
                    _ => encoded_as_webp(image, out),
                },
                next,
            ),
        }
    }
}

/// Whether `next` follows the saving of `image`: a file that could not be
/// written is the failure of the import; a file that was written is ready for
/// Matrix.
pub open spec fn follows_save(
    config: ImportConfig,
    index: Option<Map<Seq<u8>, Seq<char>>>,
    image: ImageView,
    saved: Result<(), String>,
    next: ImportState,
) -> bool {
    match saved {
        Ok(_) => ready_to(config, index, image, next),
        Err(reason) => next == ImportState::Done(Err(Error::IoError(reason))),
    }
}

/// Whether `next` is the state that follows `state` on `event`, in the import
/// of a file of `photo` for the pack `pack_name`.
///
/// A failed download, conversion, save or upload ends the import with its
/// error. An upload that Matrix has answered is recorded, if there is a store;
/// whatever becomes of the record, the import ends with the uploaded picture.
/// An event that does not belong to the state changes nothing.
pub open spec fn follows<D: Database>(
    importer: Importer<D>,
    photo: PhotoSize,
    pack_name: Seq<char>,
    state: ImportState,
    event: ImportEvent,
    next: ImportState,
) -> bool {
    match (state, event) {
        (ImportState::Start, ImportEvent::Begin) => next is Downloading,
        (ImportState::Downloading, ImportEvent::Downloaded { file, data }) => match file {
            Err(e) => next == ImportState::Done(Err(e)),
            Ok(f) => match data {
                Err(e) => next == ImportState::Done(Err(e)),
                Ok(bytes) => follows_download(
                    importer.config,
                    importer.index(),
                    pack_name,
                    ImageView {
                        file_name: f.file_path@,
                        data: bytes@,
                        width: photo.width,
                        height: photo.height,
                    },
                    next,
                ),
            },
        },
        (ImportState::Converting { image, conversion }, ImportEvent::Converted(rendered)) =>
            follows_conversion(
            importer.config,
            importer.index(),
            pack_name,
            image@,
            conversion,
            rendered,
            next,
        ),
        (ImportState::Saving { image, path }, ImportEvent::Saved(saved)) => follows_save(
            importer.config,
            importer.index(),
            image@,
            saved,
            next,
        ),
        (ImportState::Uploading { image, mime_type, hash }, ImportEvent::Uploaded(answer)) =>
            match answer {
            Err(e) => next == ImportState::Done(Err(e)),
            Ok(mxc) => if importer.database is Some {
                next == (ImportState::Recording { image, mxc, hash })
            } else {
                ends_with(next, image@, MxcView { url: mxc@.url, data: Some(image.data@) })
            },
        },
        (ImportState::Recording { image, mxc, hash }, ImportEvent::Appended(appended)) =>
            ends_with(next, image@, MxcView { url: mxc@.url, data: Some(image.data@) }),
        _ => next == state,
    }
}

/// Whether `after` is the importer that a step on `event` in `state` leaves
/// behind `before`.
///
/// Only a record that was written to the log enters the store, under the hash
/// and the url of the upload. A record that could not be written is noted as a
/// failure of the store and changes nothing else. No other step touches the
/// store.
pub open spec fn store_follows<D: Database>(
    before: Importer<D>,
    after: Importer<D>,
    state: ImportState,
    event: ImportEvent,
) -> bool {
    match (state, event) {
        (ImportState::Recording { image, mxc, hash }, ImportEvent::Appended(appended)) =>
            match before.database {
            Some(db) => match appended {
                Ok(_) => after.index() == Some(db.index().insert(hash@, mxc@.url)) && after.degraded@
                    == before.degraded@,
                Err(reason) => after.index() == before.index() && after.degraded@
                    == before.degraded@.push(reason),
            },
            None => after.index() == before.index() && after.degraded@ == before.degraded@,
        },
        _ => after.index() == before.index() && after.degraded@ == before.degraded@,
    }
}

/// A dry run never contacts Matrix: no image that settles or is ready is sent
/// or recorded.
pub proof fn lemma_dry_run_uploads_nothing(
    config: ImportConfig,
    index: Option<Map<Seq<u8>, Seq<char>>>,
    pack_name: Seq<char>,
    image: ImageView,
    next: ImportState,
)
    requires
        config.dry_run,
        settles_to(config, index, pack_name, image, next) || ready_to(config, index, image, next),
    ensures
        !(next is Uploading),
        !(next is Recording),
{
}

/// A file is uploaded once: after the record of an upload was written, an
/// image of the same bytes that is ready for Matrix ends at once, without an
/// upload, and its url is the url of that upload.
pub proof fn lemma_recorded_file_is_reused<D: Database>(
    before: Importer<D>,
    after: Importer<D>,
    image: Image,
    mxc: Mxc,
    hash: crate::database::Hash,
    again: ImageView,
    next: ImportState,
)
    requires
        before.database is Some,
        hash@ == sha512(image.data@),
        store_follows(
            before,
            after,
            ImportState::Recording { image, mxc, hash },
            ImportEvent::Appended(Ok(())),
        ),
        !after.config.dry_run,
        again.data == image.data@,
        ready_to(after.config, after.index(), again, next),
    ensures
        next is Done,
        next matches ImportState::Done(Ok(picture)) ==> picture.url@ == (MxcView {
            url: mxc@.url,
            data: None,
        }),
{
}

impl ImportState {
    /// What the caller has to do now.
    pub fn action(&self) -> (action: ImportAction)
        ensures
            action == match *self {
                ImportState::Start => ImportAction::Begin,
                ImportState::Downloading => ImportAction::Download,
                ImportState::Converting { image, conversion } => match conversion {
                    Pending::Lottie(format) => ImportAction::Render(format),
                    Pending::Webm => ImportAction::Encode,
                    Pending::Nothing => ImportAction::Encode,
                },
                ImportState::Saving { .. } => ImportAction::Save,
                ImportState::Uploading { .. } => ImportAction::Upload,
                ImportState::Recording { .. } => ImportAction::Append,
                ImportState::Done(_) => ImportAction::Finish,
            },
    {
        match self {
            ImportState::Start => ImportAction::Begin,
            ImportState::Downloading => ImportAction::Download,
            ImportState::Converting { image, conversion } => match conversion {
                Pending::Lottie(format) => ImportAction::Render(*format),
                _ => ImportAction::Encode,
            },
            ImportState::Saving { .. } => ImportAction::Save,
            ImportState::Uploading { .. } => ImportAction::Upload,
            ImportState::Recording { .. } => ImportAction::Append,
            ImportState::Done(_) => ImportAction::Finish,
        }
    }
}

impl<D: Database> Importer<D> {
    /// An importer with these settings and this store, and no failure of the
    /// store yet.
    pub fn new(config: ImportConfig, database: Option<D>) -> (importer: Importer<D>)
        ensures
            importer.config == config,
            importer.database == database,
            importer.degraded@.len() == 0,
    {
        Importer { config, database, degraded: Vec::new() }
    }

    /// The index of the store, if there is a store.
    pub open spec fn index(&self) -> Option<Map<Seq<u8>, Seq<char>>> {
        match self.database {
            Some(db) => Some(db.index()),
            None => None,
        }
    }

    /// The state of an image that is ready for Matrix. Nothing is uploaded in
    /// a dry run, and nothing that the store knows.
    pub fn ready(&self, image: Image) -> (next: ImportState)
        ensures
            ready_to(self.config, self.index(), image@, next),
    {
        let database = self.database.as_ref();
        assert(crate::image::stored_url(database, sha512(image.data@)) == known_url(
            self.index(),
            sha512(image.data@),
        ));
        match image.upload(self.config.dry_run, database) {
            Err(e) => ImportState::Done(Err(e)),
            Ok(UploadPlan::DryRun) => ImportState::Done(
                PhotoSize::picture(image, ImportedUrl::DryRun),
            ),
            Ok(UploadPlan::Reuse { mxc }) => ImportState::Done(
                PhotoSize::picture(image, ImportedUrl::Reused(mxc)),
            ),
            Ok(UploadPlan::Send { mime_type, hash }) => ImportState::Uploading {
                image,
                mime_type,
                hash,
            },
        }
    }

    /// The state into which an image of the pack `pack_name` settles, as it
    /// is now.
    pub fn settle(&self, pack_name: &str, image: Image) -> (next: ImportState)
        ensures
            settles_to(self.config, self.index(), pack_name@, image@, next),
    {
        match self.config.next_conversion(&image) {
            Err(e) => ImportState::Done(Err(e)),
            Ok(Pending::Nothing) => {
                if self.config.save_to_disk {
                    match image.save_path(pack_name) {
                        Some(path) => ImportState::Saving { image, path },
                        None => ImportState::Done(
                            Err(Error::IoError(String::from_str("the sticker has no file name"))),
                        ),
                    }
                } else {
                    self.ready(image)
                }
            },
            Ok(conversion) => ImportState::Converting { image, conversion },
        }
    }
}

impl PhotoSize {
    /// One step of the import of this picture's file: the state that follows
    /// `state` on `event`.
    ///
    /// The file is downloaded, unpacked if it is a packed animation, converted
    /// as the settings ask, saved if files are saved, and then uploaded, unless
    /// this is a dry run or the store knows its bytes. The file belongs to a
    /// sticker of the pack `pack_name`. An upload is recorded in the store. A failure of
    /// the store's log costs the picture nothing: it is noted, and the import
    /// ends with the uploaded picture. An event that does not belong to the
    /// state changes nothing.
    pub fn import<D: Database>(
        &self,
        importer: &mut Importer<D>,
        pack_name: &str,
        state: ImportState,
        event: ImportEvent,
    ) -> (next: ImportState)
        ensures
            final(importer).config == old(importer).config,
            follows(*old(importer), *self, pack_name@, state, event, next),
            store_follows(*old(importer), *final(importer), state, event),
    {
        match (state, event) {
            (ImportState::Start, ImportEvent::Begin) => ImportState::Downloading,
            (ImportState::Downloading, ImportEvent::Downloaded { file, data }) => {
                let image = match self.download(file, data) {
                    Ok(image) => image,
                    Err(e) => {
                        return ImportState::Done(Err(e));
                    },
                };
                match image.unpack_tgs() {
                    Ok(image) => importer.settle(pack_name, image),
                    Err(e) => ImportState::Done(Err(e)),
                }
            },
            (ImportState::Converting { image, conversion }, ImportEvent::Converted(rendered)) => {
                let converted = match conversion {
                    Pending::Lottie(format) => image.convert_lottie(format, rendered),
                    Pending::Webm => image.convert_webm2webp(rendered),
                    Pending::Nothing => Ok(image),
                };
                match converted {
                    Ok(image) => importer.settle(pack_name, image),
                    Err(e) => ImportState::Done(Err(e)),
                }
            },
            (ImportState::Saving { image, path }, ImportEvent::Saved(saved)) => {
                match saved {
                    Ok(_) => importer.ready(image),
                    Err(reason) => ImportState::Done(Err(Error::IoError(reason))),
                }
            },
            (ImportState::Uploading { image, mime_type, hash }, ImportEvent::Uploaded(answer)) => {
                match answer {
                    Err(e) => ImportState::Done(Err(e)),
                    Ok(mxc) => {
                        if importer.database.is_some() {
                            ImportState::Recording { image, mxc, hash }
                        } else {
                            ImportState::Done(PhotoSize::picture(image, ImportedUrl::Uploaded(mxc)))
                        }
                    },
                }
            },
            (ImportState::Recording { image, mxc, hash }, ImportEvent::Appended(appended)) => {
                match &mut importer.database {
                    Some(db) => {
                        let failure = match &appended {
                            Ok(_) => None,
                            Err(reason) => Some(reason.clone()),
                        };
                        let _ = db.add(hash, mxc.url().clone(), appended);
                        match failure {
                            Some(reason) => importer.degraded.push(reason),
                            None => {},
                        }
                    },
                    None => {},
                }
                ImportState::Done(PhotoSize::picture(image, ImportedUrl::Uploaded(mxc)))
            },
            (state, _) => state,
        }
    }
}

impl Sticker {
    /// How the import of the sticker ended, given how the imports of its
    /// picture and of its thumbnail ended. A sticker that is left out is
    /// filtered, whatever became of its files; a sticker of which a file
    /// failed has failed, with the error of the picture first.
    pub fn outcome(
        &self,
        config: &ImportConfig,
        image: Result<crate::matrix::sticker::Image, Error>,
        thumbnail: Option<Result<crate::matrix::sticker::Image, Error>>,
    ) -> (outcome: ImportOutcome)
        ensures
            (self.is_video && config.keep_webm) ==> outcome is Filtered,
            !(self.is_video && config.keep_webm) ==> match image {
                Err(e) => outcome == ImportOutcome::Failed(e),
                Ok(picture) => match thumbnail {
                    Some(Err(e)) => outcome == ImportOutcome::Failed(e),
                    Some(Ok(thumb)) => outcome matches ImportOutcome::Imported(sticker)
                        && self.is_imported_as(sticker, picture, Some(thumb)),
                    None => outcome matches ImportOutcome::Imported(sticker)
                        && self.is_imported_as(sticker, picture, None),
                },
            },
    {
        if self.is_filtered(config) {
            return ImportOutcome::Filtered;
        }
        let picture = match image {
            Ok(picture) => picture,
            Err(e) => {
                return ImportOutcome::Failed(e);
            },
        };
        match thumbnail {
            Some(Err(e)) => ImportOutcome::Failed(e),
            Some(Ok(thumb)) => ImportOutcome::Imported(self.import(picture, Some(thumb))),
            None => ImportOutcome::Imported(self.import(picture, None)),
        }
    }
}

} // verus!
