//! The errors that an import can end in.

use vstd::prelude::*;
use vstd::string::*;
use crate::text::{debug_quoted, debug_text, decimal, decimal_text};

verus! {

/// A string that was given as a pack url but starts with none of the accepted
/// prefixes. It holds the string as it was given.
#[derive(Debug)]
pub struct InvalidPackUrl(pub String);

/// The sentence that follows the quoted url in the message of [`InvalidPackUrl`].
pub open spec fn invalid_pack_url_hint() -> Seq<char> {
    " does not look like a Telegram StickerPack\nPack url should start with \"https://t.me/addstickers/\", \"t.me/addstickers/\" or \"tg://addstickers?set=\""@
}

impl InvalidPackUrl {
    /// The message shown to the user: the rejected string in quotes, then the
    /// three prefixes that are accepted.
    pub fn message(&self) -> (text: String)
        ensures
            text@ == debug_text(self.0@) + invalid_pack_url_hint(),
    {
        let quoted = debug_quoted(self.0.as_str());
        quoted.concat(
            " does not look like a Telegram StickerPack\nPack url should start with \"https://t.me/addstickers/\", \"t.me/addstickers/\" or \"tg://addstickers?set=\"",
        )
    }
}

/// A well-formed answer of the Telegram bot api that reports a failure.
#[derive(Debug)]
pub struct TelgramApiError {
    pub error_code: u32,
    pub description: String,
}

impl TelgramApiError {
    /// The message shown to the user: the error code and the description that
    /// Telegram gave.
    pub fn message(&self) -> (text: String)
        ensures
            text@ == "Telegram request was not successful: "@ + decimal_text(self.error_code as nat)
                + " "@ + self.description@,
    {
        let text = String::from_str("Telegram request was not successful: ");
        let code = decimal(self.error_code as u64);
        text.concat(code.as_str()).concat(" ").concat(self.description.as_str())
    }
}

/// The file name of a sticker has no extension, so no mime type can be told.
#[derive(Debug)]
pub struct NoMimeType;

impl NoMimeType {
    pub fn message(&self) -> (text: String)
        ensures
            text@ == "no extension/mimetyp found at sticker filename"@,
    {
        String::from_str("no extension/mimetyp found at sticker filename")
    }
}

/// The error body that a Matrix homeserver sends with a failed request.
#[derive(Debug)]
pub struct MatrixError {
    /// The error code, such as `M_FORBIDDEN`.
    pub errcode: String,
    /// A human-readable error message.
    pub error: String,
    pub retry_after_ms: Option<u32>,
}

impl MatrixError {
    pub fn message(&self) -> (text: String)
        ensures
            text@ == "Matrix api request was not successful: "@ + self.errcode@ + " "@
                + self.error@,
    {
        let text = String::from_str("Matrix api request was not successful: ");
        text.concat(self.errcode.as_str()).concat(" ").concat(self.error.as_str())
    }
}

/// The homeserver refused the upload of a sticker file.
#[derive(Debug)]
pub struct MatrixUploadApiError {
    /// The http status of the answer.
    pub status_code: u16,
    /// The error body of the answer, or why it could not be read.
    pub matrix_error: Result<MatrixError, String>,
    pub filename: String,
}

/// The line of the upload error's message that describes the error body.
pub open spec fn matrix_error_line(matrix_error: Result<MatrixError, String>) -> Seq<char> {
    match matrix_error {
        Ok(value) => "Matrix api request was not successful: "@ + value.errcode@ + " "@
            + value.error@,
        Err(error) => "Error getting error: "@ + error@,
    }
}

impl MatrixUploadApiError {
    /// The message shown to the user: the file name in quotes and the status
    /// code, then the line that describes the error body.
    pub fn message(&self) -> (text: String)
        ensures
            text@ == "failed to upload sticker "@ + debug_text(self.filename@)
                + " with status code "@ + decimal_text(self.status_code as nat) + ":\n"@
                + matrix_error_line(self.matrix_error),
    {
        let text = String::from_str("failed to upload sticker ");
        let quoted = debug_quoted(self.filename.as_str());
        let code = decimal(self.status_code as u64);
        let head = text.concat(quoted.as_str()).concat(" with status code ").concat(
            code.as_str(),
        ).concat(":\n");
        match &self.matrix_error {
            Ok(value) => {
                let line = value.message();
                assert(line@ == matrix_error_line(self.matrix_error));
                head.concat(line.as_str())
            },
            Err(error) => {
                let line = String::from_str("Error getting error: ").concat(error.as_str());
                head.concat(line.as_str())
            },
        }
    }
}

/// A sticker format that needs a converter which this build does not have.
#[derive(Debug, Clone, Copy, PartialEq, Eq, Structural)]
pub enum UnsupportedFormat {
    /// Animated stickers, which need the lottie renderer.
    Lottie,
    /// Video stickers, which need the video decoder.
    Webm,
}

impl UnsupportedFormat {
    pub open spec fn kind_text(self) -> Seq<char> {
        match self {
            UnsupportedFormat::Lottie => "animated"@,
            UnsupportedFormat::Webm => "video"@,
        }
    }

    pub open spec fn feature_text(self) -> Seq<char> {
        match self {
            UnsupportedFormat::Lottie => "\"lottie\""@,
            UnsupportedFormat::Webm => "\"ffmpeg\""@,
        }
    }

    /// The message shown to the user: which kind of sticker cannot be
    /// converted, and which feature is missing.
    pub fn message(&self) -> (text: String)
        ensures
            text@ == self.kind_text()
                + " sticker are unsupported, since mstickerlib was compliled without the "@
                + self.feature_text() + " feature."@,
    {
        let kind = match self {
            UnsupportedFormat::Lottie => "animated",
            UnsupportedFormat::Webm => "video",
        };
        let feature = match self {
            UnsupportedFormat::Lottie => "\"lottie\"",
            UnsupportedFormat::Webm => "\"ffmpeg\"",
        };
        String::from_str(kind).concat(
            " sticker are unsupported, since mstickerlib was compliled without the ",
        ).concat(feature).concat(" feature.")
    }
}

/// Why the import of one sticker, or of a whole pack, failed.
#[derive(Debug)]
pub enum Error {
    InvalidPackUrl(InvalidPackUrl),
    /// A request did not reach Telegram or the homeserver, or its answer could
    /// not be read. Holds the transport's description.
    Reqwest(String),
    /// The Telegram api has returned an error.
    Telegram(TelgramApiError),
    /// Reading or writing a file failed, or unpacking a compressed sticker.
    IoError(String),
    /// The video decoder failed.
    Ffmpeg(String),
    /// The worker that ran a conversion was lost.
    JoinError(String),
    /// The renderer could not load the animation.
    AnimationLoadError,
    GifDecoding(String),
    GifEncoding(String),
    Webp(String),
    NoMimeType(NoMimeType),
    /// The store of uploaded files could not be read or extended.
    Database(String),
    MatrixUpload(MatrixUploadApiError),
    UnsupportedFormat(UnsupportedFormat),
}

/// The groups into which the errors fall.
#[derive(Debug, Clone, Copy, PartialEq, Eq, Structural)]
pub enum ErrorKind {
    /// A transport failure while reaching Telegram or the homeserver.
    Fetch,
    /// A well-formed answer that reports a failure.
    PlatformRejection,
    /// A renderer, decoder or encoder failed, or the format is unsupported.
    Conversion,
    /// The store of uploaded files failed.
    Store,
    /// A pack url or id was not recognised.
    InvalidReference,
    /// A local file could not be read or written.
    Io,
}

impl Error {
    /// The group that an error belongs to.
    pub open spec fn kind_of(self) -> ErrorKind {
        match self {
            Error::InvalidPackUrl(_) => ErrorKind::InvalidReference,
            Error::Reqwest(_) => ErrorKind::Fetch,
            Error::Telegram(_) => ErrorKind::PlatformRejection,
            Error::MatrixUpload(_) => ErrorKind::PlatformRejection,
            Error::IoError(_) => ErrorKind::Io,
            Error::Database(_) => ErrorKind::Store,
            Error::Ffmpeg(_) => ErrorKind::Conversion,
            Error::JoinError(_) => ErrorKind::Conversion,
            Error::AnimationLoadError => ErrorKind::Conversion,
            Error::GifDecoding(_) => ErrorKind::Conversion,
            Error::GifEncoding(_) => ErrorKind::Conversion,
            Error::Webp(_) => ErrorKind::Conversion,
            Error::NoMimeType(_) => ErrorKind::Conversion,
            Error::UnsupportedFormat(_) => ErrorKind::Conversion,
        }
    }

    pub fn kind(&self) -> (kind: ErrorKind)
        ensures
            kind == self.kind_of(),
    {
        match self {
            Error::InvalidPackUrl(_) => ErrorKind::InvalidReference,
            Error::Reqwest(_) => ErrorKind::Fetch,
            Error::Telegram(_) | Error::MatrixUpload(_) => ErrorKind::PlatformRejection,
            Error::IoError(_) => ErrorKind::Io,
            Error::Database(_) => ErrorKind::Store,
            _ => ErrorKind::Conversion,
        }
    }

    /// The text that follows the colon in the messages of the variants that
    /// hold a description.
    pub open spec fn message_of(self) -> Seq<char> {
        match self {
            Error::InvalidPackUrl(e) => debug_text(e.0@) + invalid_pack_url_hint(),
            Error::Reqwest(m) => "failed to perform request: "@ + m@,
            Error::Telegram(e) => "failed to perform request: "@
                + ("Telegram request was not successful: "@ + decimal_text(e.error_code as nat)
                + " "@ + e.description@),
            Error::IoError(m) => m@,
            Error::Ffmpeg(m) => "failed to convert webm sticker: "@ + m@,
            Error::JoinError(m) => "failed to join task: "@ + m@,
            Error::AnimationLoadError => "failed to load sticker from tmp file"@,
            Error::GifDecoding(m) => "failed to deencode sticker as gif: "@ + m@,
            Error::GifEncoding(m) => "failed to encode sticker as gif: "@ + m@,
            Error::Webp(m) => "failed to en- or decode sticker as webp: "@ + m@,
            Error::NoMimeType(_) => "no extension/mimetyp found at sticker filename"@,
            Error::Database(m) =>
                "failed to insert or check for file duplicate at the database: "@ + m@,
            Error::MatrixUpload(e) => "failed to upload sticker "@ + debug_text(e.filename@)
                + " with status code "@ + decimal_text(e.status_code as nat) + ":\n"@
                + matrix_error_line(e.matrix_error),
            Error::UnsupportedFormat(f) => f.kind_text()
                + " sticker are unsupported, since mstickerlib was compliled without the "@
                + f.feature_text() + " feature."@,
        }
    }

    /// The message shown to the user.
    pub fn message(&self) -> (text: String)
        ensures
            text@ == self.message_of(),
    {
        match self {
            Error::InvalidPackUrl(e) => e.message(),
            Error::Reqwest(m) => String::from_str("failed to perform request: ").concat(
                m.as_str(),
            ),
            Error::Telegram(e) => {
                let inner = e.message();
                String::from_str("failed to perform request: ").concat(inner.as_str())
            },
            Error::IoError(m) => m.clone(),
            Error::Ffmpeg(m) => String::from_str("failed to convert webm sticker: ").concat(
                m.as_str(),
            ),
            Error::JoinError(m) => String::from_str("failed to join task: ").concat(m.as_str()),
            Error::AnimationLoadError => String::from_str("failed to load sticker from tmp file"),
            Error::GifDecoding(m) => String::from_str(
                "failed to deencode sticker as gif: ",
            ).concat(m.as_str()),
            Error::GifEncoding(m) => String::from_str("failed to encode sticker as gif: ").concat(
                m.as_str(),
            ),
            Error::Webp(m) => String::from_str(
                "failed to en- or decode sticker as webp: ",
            ).concat(m.as_str()),
            Error::NoMimeType(e) => e.message(),
            Error::Database(m) => String::from_str(
                "failed to insert or check for file duplicate at the database: ",
            ).concat(m.as_str()),
            Error::MatrixUpload(e) => e.message(),
            Error::UnsupportedFormat(f) => f.message(),
        }
    }
}

} // verus!
