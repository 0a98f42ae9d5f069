//! A sticker file with its meta data, and the conversions between the formats
//! in which stickers come.
//!
//! A conversion is chosen by the ending of the file name, and every conversion
//! gives the file the ending of its new format: the mime type under which a
//! file is uploaded is read from its name.

use std::io::Read;
use std::path::Path;
use vstd::prelude::*;
use vstd::string::*;
use crate::database::{hash, lookup, sha512, Database};
use crate::error::{Error, NoMimeType};
use crate::matrix::{Mxc, MxcView};
use crate::text::{lemma_suffix_split, strip_suffix};

verus! {

/// A colour, with or without transparency.
#[derive(Clone, Copy, Debug, PartialEq, Eq, Structural)]
pub struct Color {
    pub r: u8,
    pub g: u8,
    pub b: u8,
    pub alpha: bool,
}

impl Default for Color {
    /// Transparent black.
    fn default() -> (color: Color)
        ensures
            color == (Color { r: 0, g: 0, b: 0, alpha: true }),
    {
        Color { r: 0, g: 0, b: 0, alpha: true }
    }
}

/// The format to which animated stickers are converted.
#[derive(Clone, Copy, Debug, PartialEq, Eq, Structural)]
pub enum AnimationFormat {
    /// An animated gif, in which `transparent_color` stands for transparency.
    Gif { transparent_color: Color },
    /// An animated webp.
    Webp,
}

impl Default for AnimationFormat {
    fn default() -> (format: AnimationFormat)
        ensures
            format == AnimationFormat::Webp,
    {
        AnimationFormat::Webp
    }
}

impl AnimationFormat {
    /// The file name extension of the format.
    pub open spec fn extension(self) -> Seq<char> {
        match self {
            AnimationFormat::Gif { .. } => "gif"@,
            AnimationFormat::Webp => "webp"@,
        }
    }

    /// The file name ending of the format, with its dot.
    pub open spec fn ending(self) -> Seq<char> {
        match self {
            AnimationFormat::Gif { .. } => ".gif"@,
            AnimationFormat::Webp => ".webp"@,
        }
    }
}

/// What a converter hands back: the encoded file and the size of its picture.
#[derive(Debug)]
pub struct Rendered {
    pub data: Vec<u8>,
    pub width: u32,
    pub height: u32,
}

/// Generic image struct, containing the image data and its meta data.
#[derive(Debug)]
pub struct Image {
    pub file_name: String,
    pub data: Vec<u8>,
    pub width: u32,
    pub height: u32,
}

/// What an [`Image`] stands for.
pub struct ImageView {
    pub file_name: Seq<char>,
    pub data: Seq<u8>,
    pub width: u32,
    pub height: u32,
}

impl View for Image {
    type V = ImageView;

    open spec fn view(&self) -> ImageView {
        ImageView {
            file_name: self.file_name@,
            data: self.data@,
            width: self.width,
            height: self.height,
        }
    }
}

/// The extension of a file name as `std::path::Path::extension` tells it, by
/// the path rules of the platform that the library is built for: the part of
/// the last path component after its final dot, if that component has a dot
/// other than a leading one.
pub uninterp spec fn path_extension(file_name: Seq<char>) -> Option<Seq<char>>;

/// Whether `name` ends with a dot followed by `ext`, where `ext` is not empty
/// and holds no dot and no path separator.
pub open spec fn names_extension(name: Seq<char>, ext: Seq<char>) -> bool {
    &&& ext.len() > 0
    &&& (seq!['.'] + ext).is_suffix_of(name)
    &&& forall|i: int| 0 <= i < ext.len() ==> ext[i] != '.' && ext[i] != '/' && ext[i] != '\\'
}

/// Trusted: calls `Path::new(..).extension()`. The extension is a function of
/// the name alone. Where the name ends with a dot and a simple extension, the
/// final component ends so too, and the part after its final dot is that
/// extension: if the path has an extension at all, it is this one.
#[verifier::external_body]
fn file_extension(file_name: &str) -> (ext: Option<String>)
    ensures
        match ext {
            Some(e) => path_extension(file_name@) == Some(e@),
            None => path_extension(file_name@) is None,
        },
        forall|simple: Seq<char>| #[trigger]
            names_extension(file_name@, simple) ==> (ext matches Some(e) ==> e@ == simple),
{
    Path::new(file_name).extension().and_then(|e| e.to_str()).map(|e| e.to_owned())
}

/// The last component of a path as `std::path::Path::file_name` tells it, by
/// the path rules of the platform that the library is built for, if the path
/// has one.
pub uninterp spec fn path_file_name(path: Seq<char>) -> Option<Seq<char>>;

/// Trusted: calls `Path::new(..).file_name()`, which gives the final component
/// of the path, a function of the path alone, and none for a path that ends in
/// `..` or has no component.
#[verifier::external_body]
fn file_name_of(path: &str) -> (name: Option<String>)
    ensures
        match name {
            Some(n) => path_file_name(path@) == Some(n@),
            None => path_file_name(path@) is None,
        },
{
    Path::new(path).file_name().and_then(|n| n.to_str()).map(|n| n.to_owned())
}

/// Where a sticker file of a pack is saved: in the directory of the pack under
/// `./stickers`, by the last component of its name. A file without such a
/// component has no place.
pub open spec fn save_path_of(pack_name: Seq<char>, file_name: Seq<char>) -> Option<Seq<char>> {
    match path_file_name(file_name) {
        Some(name) => Some("./stickers/"@ + pack_name + "/"@ + name),
        None => None,
    }
}

/// The mime type that goes with an extension: `video/webm` for a video, an
/// image type for everything else.
pub open spec fn mime_for(ext: Seq<char>) -> Seq<char> {
    if ext == "webm"@ {
        "video/"@ + ext
    } else {
        "image/"@ + ext
    }
}

/// The mime type of a file with this name, if the name has an extension.
pub open spec fn mime_type_of(file_name: Seq<char>) -> Option<Seq<char>> {
    match path_extension(file_name) {
        Some(ext) => Some(mime_for(ext)),
        None => None,
    }
}

/// The bytes that a gzip stream unpacks to, if it is one.
pub uninterp spec fn gzip_decoded(data: Seq<u8>) -> Option<Seq<u8>>;

/// Trusted: reads the bytes through `flate2::read::GzDecoder` to their end.
/// The decoder unpacks the first member of the gzip stream; what it gives, or
/// that it fails, depends on the bytes alone. A failure is handed back as its
/// description.
#[verifier::external_body]
fn gunzip(data: &[u8]) -> (res: Result<Vec<u8>, String>)
    ensures
        match res {
            Ok(output) => gzip_decoded(data@) == Some(output@),
            Err(_) => gzip_decoded(data@) is None,
        },
{
    let mut output = Vec::new();
    match flate2::read::GzDecoder::new(data).read_to_end(&mut output) {
        Ok(_) => Ok(output),
        Err(error) => Err(error.to_string()),
    }
}

/// Whether a file name has the ending of a packed animation.
pub open spec fn is_tgs(file_name: Seq<char>) -> bool {
    ".tgs"@.is_suffix_of(file_name)
}

/// Whether a file name has the ending of an unpacked animation.
pub open spec fn is_lottie(file_name: Seq<char>) -> bool {
    ".lottie"@.is_suffix_of(file_name)
}

/// Whether a file name has the ending of a video.
pub open spec fn is_webm(file_name: Seq<char>) -> bool {
    ".webm"@.is_suffix_of(file_name)
}

/// The file name without its last `ending` characters.
pub open spec fn stem(file_name: Seq<char>, ending: Seq<char>) -> Seq<char> {
    file_name.subrange(0, file_name.len() - ending.len())
}

/// A name that ends with `suffix` ends with the last character of `suffix`.
pub proof fn lemma_suffix_last(name: Seq<char>, suffix: Seq<char>)
    requires
        suffix.len() > 0,
        suffix.is_suffix_of(name),
    ensures
        name.len() > 0,
        name.last() == suffix.last(),
{
    let tail = name.subrange(name.len() - suffix.len(), name.len() as int);
    assert(tail[suffix.len() - 1] == name[name.len() - 1]);
}

/// A rendered animation is named after its format: the name ends with a dot
/// and the extension of the format, so that the mime type read from the name
/// is that of the format.
pub proof fn lemma_rendered_name_tells_format(stem: Seq<char>, format: AnimationFormat)
    ensures
        names_extension(stem + format.ending(), format.extension()),
        mime_for(format.extension()) == "image/"@ + format.extension(),
{
    reveal_strlit(".gif");
    reveal_strlit("gif");
    reveal_strlit(".webp");
    reveal_strlit("webp");
    reveal_strlit("webm");
    let name = stem + format.ending();
    let dotted = seq!['.'] + format.extension();
    assert(dotted =~= format.ending());
    assert(name.subrange(name.len() - dotted.len(), name.len() as int) =~= dotted);
    assert(format.extension() != "webm"@) by {
        if format.extension() == "webm"@ {
            assert(format.extension().last() == 'm');
        }
    }
}

/// An encoded video is named as a webp: the mime type read from its name is
/// that of an image, no longer that of a video.
pub proof fn lemma_encoded_name_tells_webp(stem: Seq<char>)
    ensures
        names_extension(stem + ".webp"@, "webp"@),
        mime_for("webp"@) == "image/"@ + "webp"@,
{
    lemma_rendered_name_tells_format(stem, AnimationFormat::Webp);
}

/// A converted file is not converted again: its name has the ending of no
/// format that a converter takes.
pub proof fn lemma_converted_name_is_final(stem: Seq<char>, format: AnimationFormat)
    ensures
        !is_tgs(stem + format.ending()),
        !is_lottie(stem + format.ending()),
        !is_webm(stem + format.ending()),
{
    reveal_strlit(".gif");
    reveal_strlit(".webp");
    reveal_strlit(".tgs");
    reveal_strlit(".lottie");
    reveal_strlit(".webm");
    let name = stem + format.ending();
    assert(name.last() == format.ending().last());
    if is_tgs(name) {
        lemma_suffix_last(name, ".tgs"@);
    }
    if is_lottie(name) {
        lemma_suffix_last(name, ".lottie"@);
    }
    if is_webm(name) {
        lemma_suffix_last(name, ".webm"@);
    }
}

/// What has to happen with a file that is ready for Matrix.
#[derive(Debug)]
pub enum UploadPlan {
    /// Nothing is uploaded in a dry run.
    DryRun,
    /// The same bytes were uploaded before: their url is used again.
    Reuse { mxc: Mxc },
    /// The file has to be uploaded under this mime type. `hash` is the hash
    /// under which the upload is recorded afterwards.
    Send { mime_type: String, hash: crate::database::Hash },
}

/// The url that the index of a store holds for a hash. Without a store nothing
/// is known.
pub open spec fn known_url(index: Option<Map<Seq<u8>, Seq<char>>>, digest: Seq<u8>) -> Option<
    Seq<char>,
> {
    match index {
        Some(index) => lookup(index, digest),
        None => None,
    }
}

/// The url that a store holds for a hash.
pub open spec fn stored_url<D: Database>(database: Option<&D>, digest: Seq<u8>) -> Option<
    Seq<char>,
> {
    known_url(
        match database {
            Some(db) => Some(db.index()),
            None => None,
        },
        digest,
    )
}

/// The url that stands in for an upload in a dry run.
pub open spec fn dry_run_url() -> Seq<char> {
    "!!! DRY_RUN !!!"@
}

/// A packed animation once its data is unpacked: the name ends in `.lottie`
/// in place of `.tgs`, the size is kept.
pub open spec fn unpacked(image: ImageView, output: Seq<u8>) -> ImageView {
    ImageView {
        file_name: stem(image.file_name, ".tgs"@) + ".lottie"@,
        data: output,
        width: image.width,
        height: image.height,
    }
}

/// An animation once it is rendered: the name ends as the format does in place
/// of `.lottie`, data and size are those of the rendering.
pub open spec fn rendered_as(image: ImageView, format: AnimationFormat, out: Rendered) -> ImageView {
    ImageView {
        file_name: stem(image.file_name, ".lottie"@) + format.ending(),
        data: out.data@,
        width: out.width,
        height: out.height,
    }
}

/// A video once it is encoded as a webp: the name ends in `.webp` in place of
/// `.webm`, data and size are those of the encoding.
pub open spec fn encoded_as_webp(image: ImageView, out: Rendered) -> ImageView {
    ImageView {
        file_name: stem(image.file_name, ".webm"@) + ".webp"@,
        data: out.data@,
        width: out.width,
        height: out.height,
    }
}

impl Image {
    /// The mime type of the image, as its file name tells it.
    pub fn mime_type(&self) -> (res: Result<String, NoMimeType>)
        ensures
            match res {
                Ok(mime) => mime_type_of(self.file_name@) == Some(mime@),
                Err(_) => mime_type_of(self.file_name@) is None,
            },
            forall|simple: Seq<char>| #[trigger]
                names_extension(self.file_name@, simple) ==> (res matches Ok(mime) ==> mime@
                    == mime_for(simple)),
    {
        match file_extension(self.file_name.as_str()) {
            None => Err(NoMimeType),
            Some(extension) => {
                let webm = String::from_str("webm");
                if extension == webm {
                    Ok(String::from_str("video/").concat(extension.as_str()))
                } else {
                    Ok(String::from_str("image/").concat(extension.as_str()))
                }
            },
        }
    }

    /// The image that a packed animation becomes once `decoded` is what its
    /// data unpacked to: the data is replaced and the name ends in `.lottie`.
    /// An image of another format is handed back as it is. A failure to unpack
    /// is the image's failure.
    pub fn with_unpacked(self, decoded: Result<Vec<u8>, String>) -> (res: Result<Image, Error>)
        ensures
            !is_tgs(self.file_name@) ==> res == Ok::<Image, Error>(self),
            is_tgs(self.file_name@) ==> match decoded {
                Ok(output) => res matches Ok(image) && image@ == unpacked(self@, output@),
                Err(reason) => res == Err::<Image, Error>(Error::IoError(reason)),
            },
    {
        let stem = match strip_suffix(self.file_name.as_str(), ".tgs") {
            None => {
                return Ok(self);
            },
            Some(stem) => String::from_str(stem),
        };
        proof {
            lemma_suffix_split(self.file_name@, stem@, ".tgs"@);
        }
        match decoded {
            Err(reason) => Err(Error::IoError(reason)),
            Ok(output) => Ok(
                Image {
                    file_name: stem.concat(".lottie"),
                    data: output,
                    width: self.width,
                    height: self.height,
                },
            ),
        }
    }

    /// Unpack the gzip compression of a `tgs` file, converting it to `lottie`;
    /// ignore other formats.
    pub fn unpack_tgs(self) -> (res: Result<Image, Error>)
        ensures
            !is_tgs(self.file_name@) ==> res == Ok::<Image, Error>(self),
            is_tgs(self.file_name@) ==> match gzip_decoded(self.data@) {
                Some(output) => res matches Ok(image) && image@ == unpacked(self@, output),
                None => res matches Err(Error::IoError(_)),
            },
    {
        if strip_suffix(self.file_name.as_str(), ".tgs").is_none() {
            return Ok(self);
        }
        let decoded = gunzip(self.data.as_slice());
        self.with_unpacked(decoded)
    }

    /// Whether the image is an unpacked animation, which a renderer can
    /// convert.
    pub fn is_lottie(&self) -> (b: bool)
        ensures
            b == is_lottie(self.file_name@),
    {
        strip_suffix(self.file_name.as_str(), ".lottie").is_some()
    }

    /// Whether the image is a video, which the video encoder can convert.
    pub fn is_webm(&self) -> (b: bool)
        ensures
            b == is_webm(self.file_name@),
    {
        strip_suffix(self.file_name.as_str(), ".webm").is_some()
    }

    /// Convert a `lottie` image to webp or gif, ignore other formats.
    ///
    /// `rendered` is what the renderer made of the image's data in the format
    /// asked for. The converted image holds the rendered data and size, and
    /// its name ends as the format does.
    pub fn convert_lottie(
        self,
        animation_format: AnimationFormat,
        rendered: Result<Rendered, Error>,
    ) -> (res: Result<Image, Error>)
        ensures
            !is_lottie(self.file_name@) ==> res == Ok::<Image, Error>(self),
            is_lottie(self.file_name@) ==> match rendered {
                Ok(out) => res matches Ok(image) && image@ == rendered_as(
                    self@,
                    animation_format,
                    out,
                ) && names_extension(image.file_name@, animation_format.extension()),
                Err(error) => res == Err::<Image, Error>(error),
            },
    {
        let stem = match strip_suffix(self.file_name.as_str(), ".lottie") {
            None => {
                return Ok(self);
            },
            Some(stem) => String::from_str(stem),
        };
        proof {
            lemma_suffix_split(self.file_name@, stem@, ".lottie"@);
        }
        let out = match rendered {
            Err(error) => {
                return Err(error);
            },
            Ok(out) => out,
        };
        proof {
            lemma_rendered_name_tells_format(stem@, animation_format);
        }
        let file_name = match animation_format {
            AnimationFormat::Gif { .. } => stem.concat(".gif"),
            AnimationFormat::Webp => stem.concat(".webp"),
        };
        Ok(Image { file_name, data: out.data, width: out.width, height: out.height })
    }

    /// Convert `webm` video stickers to webp, ignore other formats.
    ///
    /// `encoded` is what the video encoder made of the image's data.
    pub fn convert_webm2webp(self, encoded: Result<Rendered, Error>) -> (res: Result<Image, Error>)
        ensures
            !is_webm(self.file_name@) ==> res == Ok::<Image, Error>(self),
            is_webm(self.file_name@) ==> match encoded {
                Ok(out) => res matches Ok(image) && image@ == encoded_as_webp(self@, out)
                    && names_extension(image.file_name@, "webp"@),
                Err(error) => res == Err::<Image, Error>(error),
            },
    {
        let stem = match strip_suffix(self.file_name.as_str(), ".webm") {
            None => {
                return Ok(self);
            },
            Some(stem) => String::from_str(stem),
        };
        proof {
            lemma_suffix_split(self.file_name@, stem@, ".webm"@);
            lemma_encoded_name_tells_webp(stem@);
        }
        match encoded {
            Err(error) => Err(error),
            Ok(out) => Ok(
                Image {
                    file_name: stem.concat(".webp"),
                    data: out.data,
                    width: out.width,
                    height: out.height,
                },
            ),
        }
    }

    /// Where the image is saved as a sticker of the pack `pack_name`.
    pub fn save_path(&self, pack_name: &str) -> (path: Option<String>)
        ensures
            match path {
                Some(p) => save_path_of(pack_name@, self.file_name@) == Some(p@),
                None => save_path_of(pack_name@, self.file_name@) is None,
            },
    {
        match file_name_of(self.file_name.as_str()) {
            Some(name) => Some(
                String::from_str("./stickers/").concat(pack_name).concat("/").concat(
                    name.as_str(),
                ),
            ),
            None => None,
        }
    }

    /// Decide how the image gets its Matrix url.
    ///
    /// In a dry run nothing is uploaded, whatever the store holds. Otherwise
    /// the hash of the image's data is looked up: if the store knows it, its
    /// url is used again and nothing is uploaded; if not, the image has to be
    /// uploaded under the mime type of its name, and an image whose name has
    /// no extension fails.
    pub fn upload<D: Database>(&self, dry_run: bool, database: Option<&D>) -> (res: Result<
        UploadPlan,
        Error,
    >)
        ensures
            dry_run ==> res matches Ok(UploadPlan::DryRun),
            !dry_run ==> match stored_url(database, sha512(self.data@)) {
                Some(url) => res matches Ok(UploadPlan::Reuse { mxc }) && mxc@ == (MxcView {
                    url,
                    data: None,
                }),
                None => match mime_type_of(self.file_name@) {
                    Some(mime) => res matches Ok(UploadPlan::Send { mime_type, hash })
                        && mime_type@ == mime && hash@ == sha512(self.data@),
                    None => res matches Err(Error::NoMimeType(_)),
                },
            },
    {
        if dry_run {
            return Ok(UploadPlan::DryRun);
        }
        let hash = hash(self.data.as_slice());
        if let Some(db) = database {
            if let Some(url) = db.get(&hash) {
                return Ok(UploadPlan::Reuse { mxc: Mxc::from_url(url) });
            }
        }
        match self.mime_type() {
            Ok(mime_type) => Ok(UploadPlan::Send { mime_type, hash }),
            Err(e) => Err(Error::NoMimeType(e)),
        }
    }
}

} // verus!
