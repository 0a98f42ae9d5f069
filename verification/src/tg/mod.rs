//! The Telegram side: packs and stickers as the bot api describes them, and
//! their import.


pub mod sticker;
pub mod stickerpack;

use vstd::prelude::*;
use vstd::string::*;
use crate::error::{Error, TelgramApiError, UnsupportedFormat};
use crate::image::{is_lottie, is_webm, AnimationFormat, Image};

verus! {

/// How to reach the bot api.
#[derive(Debug)]
pub struct Config {
    pub bot_key: String,
}

impl Config {
    /// The address of a method of the bot api.
    pub fn method_url(&self, operation: &str) -> (url: String)
        ensures
            url@ == "https://api.telegram.org/bot"@ + self.bot_key@ + "/"@ + operation@,
    {
        String::from_str("https://api.telegram.org/bot").concat(self.bot_key.as_str()).concat(
            "/",
        ).concat(operation)
    }

    /// The address from which a file is downloaded.
    pub fn file_url(&self, file_path: &str) -> (url: String)
        ensures
            url@ == "https://api.telegram.org/file/bot"@ + self.bot_key@ + "/"@ + file_path@,
    {
        String::from_str("https://api.telegram.org/file/bot").concat(
            self.bot_key.as_str(),
        ).concat("/").concat(file_path)
    }
}

/// The converters that are at hand.
#[derive(Clone, Copy, Debug, PartialEq, Eq, Structural)]
pub struct Converters {
    /// animated stickers can be rendered
    pub lottie: bool,
    /// video stickers can be decoded
    pub webm: bool,
}

/// Additional, optional configuration for importing stickers.
#[derive(Clone, Copy, Debug)]
pub struct ImportConfig {
    /// Animation format to which animated stickers are converted. With `None`
    /// they keep their format, which Matrix clients probably do not show.
    pub animation_format: Option<AnimationFormat>,
    /// Do not convert animated stickers.
    pub keep_lottie: bool,
    /// Do not convert video stickers. Matrix shows no videos as stickers, so
    /// they are left out of the pack.
    pub keep_webm: bool,
    /// Do not upload anything to Matrix. The pack that comes out holds no
    /// valid Matrix urls.
    pub dry_run: bool,
    /// Save every sticker file to disk, as it is after its conversion.
    pub save_to_disk: bool,
    pub converters: Converters,
}

impl Default for ImportConfig {
    fn default() -> (config: ImportConfig)
        ensures
            config.animation_format == Some(AnimationFormat::Webp),
            !config.keep_lottie,
            !config.keep_webm,
            !config.dry_run,
            !config.save_to_disk,
            config.converters.lottie,
            config.converters.webm,
    {
        ImportConfig {
            animation_format: Some(AnimationFormat::Webp),
            keep_lottie: false,
            keep_webm: false,
            dry_run: false,
            save_to_disk: false,
            converters: Converters { lottie: true, webm: true },
        }
    }
}

/// The conversion that a sticker file still needs.
#[derive(Clone, Copy, Debug, PartialEq, Eq, Structural)]
pub enum Pending {
    /// The file can be uploaded as it is.
    Nothing,
    /// The animation has to be rendered in this format.
    Lottie(AnimationFormat),
    /// The video has to be encoded as an animated webp.
    Webm,
}

/// The conversion that a file with this name still needs under a
/// configuration, or the format for which the converter is missing. The name
/// alone decides.
pub open spec fn pending_conversion(config: ImportConfig, file_name: Seq<char>) -> Result<
    Pending,
    UnsupportedFormat,
> {
    if is_lottie(file_name) && !config.keep_lottie && config.animation_format is Some {
        if config.converters.lottie {
            Ok(Pending::Lottie(config.animation_format->0))
        } else {
            Err(UnsupportedFormat::Lottie)
        }
    } else if is_webm(file_name) && !config.keep_webm {
        if config.converters.webm {
            Ok(Pending::Webm)
        } else {
            Err(UnsupportedFormat::Webm)
        }
    } else {
        Ok(Pending::Nothing)
    }
}

/// A file that was rendered or encoded needs no further conversion, under any
/// configuration: converting is idempotent.
pub proof fn lemma_conversion_is_idempotent(
    config: ImportConfig,
    stem: Seq<char>,
    format: AnimationFormat,
)
    ensures
        pending_conversion(config, stem + format.ending()) == Ok::<Pending, UnsupportedFormat>(
            Pending::Nothing,
        ),
{
    crate::image::lemma_converted_name_is_final(stem, format);
}

/// A file of a format that no converter takes is left as it is, under any
/// configuration.
pub proof fn lemma_other_formats_untouched(config: ImportConfig, file_name: Seq<char>)
    requires
        !is_lottie(file_name),
        !is_webm(file_name),
    ensures
        pending_conversion(config, file_name) == Ok::<Pending, UnsupportedFormat>(
            Pending::Nothing,
        ),
{
}

impl ImportConfig {
    /// Which conversion the image needs next. A format that has to be
    /// converted, but whose converter is missing, is an error: the file is
    /// never passed on unconverted.
    pub fn next_conversion(&self, image: &Image) -> (res: Result<Pending, Error>)
        ensures
            match pending_conversion(*self, image.file_name@) {
                Ok(pending) => res == Ok::<Pending, Error>(pending),
                Err(format) => res == Err::<Pending, Error>(Error::UnsupportedFormat(format)),
            },
    {
        if image.is_lottie() && !self.keep_lottie {
            if let Some(format) = self.animation_format {
                if self.converters.lottie {
                    return Ok(Pending::Lottie(format));
                } else {
                    return Err(Error::UnsupportedFormat(UnsupportedFormat::Lottie));
                }
            }
        }
        if image.is_webm() && !self.keep_webm {
            if self.converters.webm {
                return Ok(Pending::Webm);
            } else {
                return Err(Error::UnsupportedFormat(UnsupportedFormat::Webm));
            }
        }
        Ok(Pending::Nothing)
    }
}

/// Where Telegram keeps a file.
#[derive(Debug)]
pub struct StickerFile {
    pub file_path: String,
}

/// An answer of the bot api: the result that was asked for, or an error code
/// with its description.
#[derive(Debug)]
pub enum TgResponse<T> {
    Success { result: T },
    Failure { error_code: u32, description: String },
}

/// What an answer of the bot api means: any answer that is not a success is an
/// error, which keeps the code and the description.
pub fn tg_get<T>(response: TgResponse<T>) -> (res: Result<T, Error>)
    ensures
        match response {
            TgResponse::Success { result } => res == Ok::<T, Error>(result),
            TgResponse::Failure { error_code, description } => res == Err::<T, Error>(
                Error::Telegram(TelgramApiError { error_code, description }),
            ),
        },
{
    match response {
        TgResponse::Success { result } => Ok(result),
        TgResponse::Failure { error_code, description } => Err(
            Error::Telegram(TelgramApiError { error_code, description }),
        ),
    }
}

} // verus!
