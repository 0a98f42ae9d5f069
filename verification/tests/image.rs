use flate2::write::GzEncoder;
use flate2::Compression;
use mstickerlib::database::{hash, Database};
use mstickerlib::database::simple_file::FileDatabase;
use mstickerlib::error::{Error, UnsupportedFormat};
use mstickerlib::image::{AnimationFormat, Color, Image, Rendered, UploadPlan};
use mstickerlib::tg::{Converters, ImportConfig, Pending};
use std::io::Write;

fn image(name: &str, data: &[u8]) -> Image {
    Image { file_name: name.to_owned(), data: data.to_vec(), width: 512, height: 256 }
}

fn gzip(data: &[u8]) -> Vec<u8> {
    let mut encoder = GzEncoder::new(Vec::new(), Compression::default());
    encoder.write_all(data).unwrap();
    encoder.finish().unwrap()
}

#[test]
fn mime_type_of_pictures_and_videos() {
    assert_eq!(image("stickers/file_1.webp", b"").mime_type().unwrap(), "image/webp");
    assert_eq!(image("file.gif", b"").mime_type().unwrap(), "image/gif");
    assert_eq!(image("file.png", b"").mime_type().unwrap(), "image/png");
    assert_eq!(image("clip.webm", b"").mime_type().unwrap(), "video/webm");
    assert_eq!(image("a.b/clip.tar.lottie", b"").mime_type().unwrap(), "image/lottie");
}

#[test]
fn mime_type_goes_by_the_last_dot_of_the_last_component() {
    assert_eq!(image("..gif", b"").mime_type().unwrap(), "image/gif");
    assert_eq!(image("a..gif", b"").mime_type().unwrap(), "image/gif");
    assert_eq!(image("a.webm.gif", b"").mime_type().unwrap(), "image/gif");
    assert_eq!(image("a.gif.webm", b"").mime_type().unwrap(), "video/webm");
    assert_eq!(image("dir/.hidden.webp", b"").mime_type().unwrap(), "image/webp");
    assert_eq!(image("a.gif/", b"").mime_type().unwrap(), "image/gif");
    assert_eq!(image("a.", b"").mime_type().unwrap(), "image/");
    assert!(image("dir/.gif", b"").mime_type().is_err());
    assert!(image("a.gif/..", b"").mime_type().is_err());
}

#[test]
fn mime_type_needs_an_extension() {
    assert!(image("file", b"").mime_type().is_err());
    assert!(image("", b"").mime_type().is_err());
    assert!(image(".webp", b"").mime_type().is_err());
    assert!(image("dir.d/file", b"").mime_type().is_err());
    assert_eq!(
        image("file", b"").mime_type().unwrap_err().message(),
        "no extension/mimetyp found at sticker filename"
    );
}

#[test]
fn unpack_tgs_unpacks_and_renames() {
    let packed = gzip(b"{\"v\":\"5.5.2\"}");
    assert_ne!(packed, b"{\"v\":\"5.5.2\"}".to_vec());
    let unpacked = image("stickers/file_7.tgs", &packed).unpack_tgs().unwrap();
    assert_eq!(unpacked.file_name, "stickers/file_7.lottie");
    assert_eq!(unpacked.data, b"{\"v\":\"5.5.2\"}".to_vec());
    assert_eq!((unpacked.width, unpacked.height), (512, 256));
    assert_eq!(unpacked.mime_type().unwrap(), "image/lottie");
}

#[test]
fn unpack_tgs_ignores_other_formats() {
    let packed = gzip(b"data");
    let same = image("file.webp", &packed).unpack_tgs().unwrap();
    assert_eq!(same.file_name, "file.webp");
    assert_eq!(same.data, packed);
    let again = image("file.lottie", b"{}").unpack_tgs().unwrap().unpack_tgs().unwrap();
    assert_eq!(again.file_name, "file.lottie");
    assert_eq!(again.data, b"{}".to_vec());
}

#[test]
fn unpack_tgs_fails_on_broken_data() {
    let res = image("file.tgs", b"this is no gzip stream").unpack_tgs();
    assert!(matches!(res, Err(Error::IoError(_))));
}

#[test]
fn with_unpacked_takes_the_result_as_given() {
    let ok = image("a.tgs", b"packed").with_unpacked(Ok(b"plain".to_vec())).unwrap();
    assert_eq!(ok.file_name, "a.lottie");
    assert_eq!(ok.data, b"plain".to_vec());
    let err = image("a.tgs", b"packed").with_unpacked(Err("corrupt".to_owned()));
    match err {
        Err(Error::IoError(reason)) => assert_eq!(reason, "corrupt"),
        _ => panic!("expected an io error"),
    }
    let other = image("a.png", b"packed").with_unpacked(Err("corrupt".to_owned())).unwrap();
    assert_eq!(other.data, b"packed".to_vec());
}

#[test]
fn convert_lottie_to_gif_reports_gif() {
    let rendered = Rendered { data: b"GIF89a".to_vec(), width: 100, height: 90 };
    let format = AnimationFormat::Gif { transparent_color: Color::default() };
    let converted = image("pack/file.lottie", b"{}").convert_lottie(format, Ok(rendered)).unwrap();
    assert_eq!(converted.file_name, "pack/file.gif");
    assert_eq!(converted.data, b"GIF89a".to_vec());
    assert_eq!((converted.width, converted.height), (100, 90));
    assert_eq!(converted.mime_type().unwrap(), "image/gif");
}

#[test]
fn convert_lottie_to_webp_reports_webp() {
    let rendered = Rendered { data: b"RIFF".to_vec(), width: 64, height: 64 };
    let converted =
        image("file.lottie", b"{}").convert_lottie(AnimationFormat::Webp, Ok(rendered)).unwrap();
    assert_eq!(converted.file_name, "file.webp");
    assert_eq!(converted.mime_type().unwrap(), "image/webp");
}

#[test]
fn convert_lottie_ignores_other_formats_and_hands_errors_on() {
    let rendered = Rendered { data: b"RIFF".to_vec(), width: 64, height: 64 };
    let same = image("file.png", b"png").convert_lottie(AnimationFormat::Webp, Ok(rendered)).unwrap();
    assert_eq!(same.file_name, "file.png");
    assert_eq!(same.data, b"png".to_vec());
    assert_eq!((same.width, same.height), (512, 256));
    let failed =
        image("file.lottie", b"{}").convert_lottie(AnimationFormat::Webp, Err(Error::AnimationLoadError));
    assert!(matches!(failed, Err(Error::AnimationLoadError)));
}

#[test]
fn convert_webm_reports_webp() {
    let encoded = Rendered { data: b"RIFF".to_vec(), width: 320, height: 240 };
    let converted = image("clip.webm", b"webm").convert_webm2webp(Ok(encoded)).unwrap();
    assert_eq!(converted.file_name, "clip.webp");
    assert_eq!(converted.data, b"RIFF".to_vec());
    assert_eq!((converted.width, converted.height), (320, 240));
    assert_eq!(converted.mime_type().unwrap(), "image/webp");
    let failed = image("clip.webm", b"webm").convert_webm2webp(Err(Error::Ffmpeg("no stream".to_owned())));
    assert!(matches!(failed, Err(Error::Ffmpeg(_))));
    let other = image("clip.gif", b"gif").convert_webm2webp(Err(Error::Ffmpeg("x".to_owned()))).unwrap();
    assert_eq!(other.file_name, "clip.gif");
}

#[test]
fn next_conversion_goes_by_name_and_config() {
    let config = ImportConfig::default();
    assert_eq!(config.next_conversion(&image("a.webp", b"")).unwrap(), Pending::Nothing);
    assert_eq!(
        config.next_conversion(&image("a.lottie", b"")).unwrap(),
        Pending::Lottie(AnimationFormat::Webp)
    );
    assert_eq!(config.next_conversion(&image("a.webm", b"")).unwrap(), Pending::Webm);
    let keep = ImportConfig { keep_lottie: true, keep_webm: true, ..ImportConfig::default() };
    assert_eq!(keep.next_conversion(&image("a.lottie", b"")).unwrap(), Pending::Nothing);
    assert_eq!(keep.next_conversion(&image("a.webm", b"")).unwrap(), Pending::Nothing);
    let none = ImportConfig { animation_format: None, ..ImportConfig::default() };
    assert_eq!(none.next_conversion(&image("a.lottie", b"")).unwrap(), Pending::Nothing);
}

#[test]
fn missing_converter_is_an_error() {
    let config = ImportConfig {
        converters: Converters { lottie: false, webm: false },
        ..ImportConfig::default()
    };
    match config.next_conversion(&image("a.lottie", b"")) {
        Err(Error::UnsupportedFormat(format)) => {
            assert_eq!(format, UnsupportedFormat::Lottie);
            assert_eq!(
                format.message(),
                "animated sticker are unsupported, since mstickerlib was compliled without the \"lottie\" feature."
            );
        },
        _ => panic!("expected an unsupported format"),
    }
    match config.next_conversion(&image("a.webm", b"")) {
        Err(Error::UnsupportedFormat(format)) => {
            assert_eq!(format, UnsupportedFormat::Webm);
            assert_eq!(
                format.message(),
                "video sticker are unsupported, since mstickerlib was compliled without the \"ffmpeg\" feature."
            );
        },
        _ => panic!("expected an unsupported format"),
    }
    assert_eq!(config.next_conversion(&image("a.png", b"")).unwrap(), Pending::Nothing);
}

#[test]
fn converted_image_needs_nothing_more() {
    let config = ImportConfig::default();
    let rendered = Rendered { data: b"RIFF".to_vec(), width: 64, height: 64 };
    let converted =
        image("file.lottie", b"{}").convert_lottie(AnimationFormat::Webp, Ok(rendered)).unwrap();
    assert_eq!(config.next_conversion(&converted).unwrap(), Pending::Nothing);
}

#[test]
fn hash_is_sha512() {
    let digest = hash(b"abc");
    let expected = "ddaf35a193617abacc417349ae20413112e6fa4e89a97ea20a9eeee64b55d39a2192992a274fc1a836ba3c23a3feebbd454d4423643ce80e2a9ac94fa54ca49f";
    let hex: String = digest.iter().map(|b| format!("{:02x}", b)).collect();
    assert_eq!(hex, expected);
    assert_eq!(hash(b"abc"), hash(b"abc"));
    assert_ne!(hash(b"abc"), hash(b"abd"));
}

#[test]
fn upload_plan_in_a_dry_run_sends_nothing() {
    let (db, _) = FileDatabase::new(Vec::new());
    let plan = image("a.webp", b"data").upload::<FileDatabase>(true, Some(&db)).unwrap();
    assert!(matches!(plan, UploadPlan::DryRun));
    let plan = image("noextension", b"data").upload::<FileDatabase>(true, None).unwrap();
    assert!(matches!(plan, UploadPlan::DryRun));
}

#[test]
fn upload_plan_sends_an_unknown_file() {
    let (db, _) = FileDatabase::new(Vec::new());
    match image("a.webp", b"data").upload::<FileDatabase>(false, Some(&db)).unwrap() {
        UploadPlan::Send { mime_type, hash: digest } => {
            assert_eq!(mime_type, "image/webp");
            assert_eq!(digest, hash(b"data"));
        },
        _ => panic!("expected an upload"),
    }
    assert!(matches!(
        image("a.webm", b"data").upload::<FileDatabase>(false, None).unwrap(),
        UploadPlan::Send { .. }
    ));
    assert!(matches!(image("a", b"data").upload::<FileDatabase>(false, None), Err(Error::NoMimeType(_))));
}

#[test]
fn upload_plan_reuses_a_known_file() {
    let (mut db, _) = FileDatabase::new(Vec::new());
    db.add(hash(b"data"), "mxc://example.org/abc".to_owned(), Ok(())).unwrap();
    match image("a.webp", b"data").upload::<FileDatabase>(false, Some(&db)).unwrap() {
        UploadPlan::Reuse { mxc } => {
            assert_eq!(mxc.url(), "mxc://example.org/abc");
            assert!(mxc.data().is_none());
        },
        _ => panic!("expected a reuse"),
    }
    assert!(matches!(
        image("a.webp", b"other").upload::<FileDatabase>(false, Some(&db)).unwrap(),
        UploadPlan::Send { .. }
    ));
    assert!(matches!(
        image("a.webp", b"data").upload::<FileDatabase>(false, None).unwrap(),
        UploadPlan::Send { .. }
    ));
}
