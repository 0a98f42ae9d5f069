use flate2::write::GzEncoder;
use flate2::Compression;
use mstickerlib::database::{hash, Database};
use mstickerlib::database::simple_file::{FileDatabase, HashUrl};
use mstickerlib::error::{Error, UnsupportedFormat};
use mstickerlib::image::{AnimationFormat, Color, Rendered};
use mstickerlib::matrix::Mxc;
use mstickerlib::tg::sticker::{
    ImportAction, ImportEvent, ImportState, Importer, PhotoSize, Sticker,
};
use mstickerlib::tg::stickerpack::ImportOutcome;
use mstickerlib::tg::{Converters, ImportConfig, Pending, StickerFile};
use std::io::Write;

fn photo() -> PhotoSize {
    PhotoSize { file_id: "id".to_owned(), file_unique_id: "uid".to_owned(), width: 512, height: 512 }
}

fn downloaded(name: &str, data: &[u8]) -> ImportEvent {
    ImportEvent::Downloaded { file: Ok(StickerFile { file_path: name.to_owned() }), data: Ok(data.to_vec()) }
}

fn gzip(data: &[u8]) -> Vec<u8> {
    let mut encoder = GzEncoder::new(Vec::new(), Compression::default());
    encoder.write_all(data).unwrap();
    encoder.finish().unwrap()
}

fn begin(importer: &mut Importer<FileDatabase>) -> ImportState {
    let state = ImportState::Start;
    assert_eq!(state.action(), ImportAction::Begin);
    let state = photo().import(importer, "demo", state, ImportEvent::Begin);
    assert!(matches!(state, ImportState::Downloading));
    assert_eq!(state.action(), ImportAction::Download);
    state
}

#[test]
fn static_sticker_is_uploaded_and_recorded() {
    let (db, _) = FileDatabase::new(Vec::new());
    let mut importer = Importer::<FileDatabase>::new(ImportConfig::default(), Some(db));
    let state = begin(&mut importer);
    let state = photo().import(&mut importer, "demo", state, downloaded("stickers/f.webp", b"webp"));
    match &state {
        ImportState::Uploading { image, mime_type, hash: digest } => {
            assert_eq!(image.file_name, "stickers/f.webp");
            assert_eq!(mime_type, "image/webp");
            assert_eq!(digest, &hash(b"webp"));
        },
        _ => panic!("expected an upload"),
    }
    assert_eq!(state.action(), ImportAction::Upload);
    let answer = ImportEvent::Uploaded(Ok(Mxc::from_url("mxc://hs/1".to_owned())));
    let state = photo().import(&mut importer, "demo", state, answer);
    match &state {
        ImportState::Recording { mxc, hash: digest, .. } => {
            let record = HashUrl { hash: *digest, url: mxc.url().clone() };
            assert!(record.line().unwrap().ends_with(",\"url\":\"mxc://hs/1\"}"));
        },
        _ => panic!("expected a record"),
    }
    assert_eq!(state.action(), ImportAction::Append);
    let state = photo().import(&mut importer, "demo", state, ImportEvent::Appended(Ok(())));
    assert_eq!(state.action(), ImportAction::Finish);
    match state {
        ImportState::Done(Ok(picture)) => {
            assert_eq!(picture.url.url(), "mxc://hs/1");
            assert_eq!(picture.url.data().as_ref().unwrap(), &b"webp".to_vec());
            assert_eq!(picture.meta_data.mimetype, "image/webp");
            assert_eq!(picture.meta_data.size, 4);
        },
        _ => panic!("expected a picture"),
    }
    assert_eq!(importer.database.as_ref().unwrap().get(&hash(b"webp")).unwrap(), "mxc://hs/1");
    assert!(importer.degraded.is_empty());

    let state = begin(&mut importer);
    let state = photo().import(&mut importer, "demo", state, downloaded("other/name.webp", b"webp"));
    match state {
        ImportState::Done(Ok(picture)) => {
            assert_eq!(picture.url.url(), "mxc://hs/1");
            assert!(picture.url.data().is_none());
        },
        _ => panic!("the second import must not upload"),
    }
}

#[test]
fn failed_log_append_costs_no_picture() {
    let (db, _) = FileDatabase::new(Vec::new());
    let mut importer = Importer::<FileDatabase>::new(ImportConfig::default(), Some(db));
    let state = begin(&mut importer);
    let state = photo().import(&mut importer, "demo", state, downloaded("f.png", b"png"));
    let state = photo().import(
        &mut importer,
        "demo",
        state,
        ImportEvent::Uploaded(Ok(Mxc::from_url("mxc://hs/2".to_owned()))),
    );
    let state =
        photo().import(&mut importer, "demo", state, ImportEvent::Appended(Err("disk full".to_owned())));
    match state {
        ImportState::Done(Ok(picture)) => assert_eq!(picture.url.url(), "mxc://hs/2"),
        _ => panic!("expected a picture"),
    }
    assert_eq!(importer.degraded, vec!["disk full"]);
    assert_eq!(importer.database.as_ref().unwrap().get(&hash(b"png")), None);
}

#[test]
fn without_a_store_nothing_is_recorded() {
    let mut importer = Importer::<FileDatabase>::new(ImportConfig::default(), None);
    let state = begin(&mut importer);
    let state = photo().import(&mut importer, "demo", state, downloaded("f.png", b"png"));
    assert!(matches!(state, ImportState::Uploading { .. }));
    let state = photo().import(
        &mut importer,
        "demo",
        state,
        ImportEvent::Uploaded(Ok(Mxc::from_url("mxc://hs/3".to_owned()))),
    );
    match state {
        ImportState::Done(Ok(picture)) => {
            assert_eq!(picture.url.url(), "mxc://hs/3");
            assert_eq!(picture.url.data().as_ref().unwrap(), &b"png".to_vec());
        },
        _ => panic!("expected a picture"),
    }
}

#[test]
fn animated_sticker_is_unpacked_and_rendered() {
    let format = AnimationFormat::Gif { transparent_color: Color { r: 1, g: 2, b: 3, alpha: false } };
    let config = ImportConfig { animation_format: Some(format), dry_run: true, ..ImportConfig::default() };
    let mut importer = Importer::<FileDatabase>::new(config, None);
    let state = begin(&mut importer);
    let state = photo().import(&mut importer, "demo", state, downloaded("a/anim.tgs", &gzip(b"{}")));
    match &state {
        ImportState::Converting { image, conversion } => {
            assert_eq!(image.file_name, "a/anim.lottie");
            assert_eq!(image.data, b"{}".to_vec());
            assert_eq!(*conversion, Pending::Lottie(format));
        },
        _ => panic!("expected a conversion"),
    }
    assert_eq!(state.action(), ImportAction::Render(format));
    let rendered = Rendered { data: b"GIF89a".to_vec(), width: 200, height: 100 };
    let state = photo().import(&mut importer, "demo", state, ImportEvent::Converted(Ok(rendered)));
    match state {
        ImportState::Done(Ok(picture)) => {
            assert_eq!(picture.url.url(), "!!! DRY_RUN !!!");
            assert_eq!(picture.url.data().as_ref().unwrap(), &b"GIF89a".to_vec());
            assert_eq!(picture.meta_data.mimetype, "image/gif");
            assert_eq!((picture.meta_data.w, picture.meta_data.h), (200, 100));
            assert_eq!(picture.meta_data.size, 6);
        },
        _ => panic!("expected a picture"),
    }
}

#[test]
fn video_sticker_is_encoded_then_uploaded() {
    let mut importer = Importer::<FileDatabase>::new(ImportConfig::default(), None);
    let state = begin(&mut importer);
    let state = photo().import(&mut importer, "demo", state, downloaded("clip.webm", b"webm"));
    assert!(matches!(&state, ImportState::Converting { conversion: Pending::Webm, .. }));
    assert_eq!(state.action(), ImportAction::Encode);
    let encoded = Rendered { data: b"RIFF".to_vec(), width: 64, height: 32 };
    let state = photo().import(&mut importer, "demo", state, ImportEvent::Converted(Ok(encoded)));
    match &state {
        ImportState::Uploading { image, mime_type, .. } => {
            assert_eq!(image.file_name, "clip.webp");
            assert_eq!(mime_type, "image/webp");
        },
        _ => panic!("expected an upload"),
    }
}

#[test]
fn failures_end_the_import() {
    let mut importer = Importer::<FileDatabase>::new(ImportConfig::default(), None);
    let state = begin(&mut importer);
    let failed = ImportEvent::Downloaded {
        file: Err(Error::Reqwest("timeout".to_owned())),
        data: Ok(Vec::new()),
    };
    let state = photo().import(&mut importer, "demo", state, failed);
    assert!(matches!(state, ImportState::Done(Err(Error::Reqwest(_)))));

    let state = begin(&mut importer);
    let state = photo().import(&mut importer, "demo", state, downloaded("a.tgs", b"no gzip"));
    assert!(matches!(state, ImportState::Done(Err(Error::IoError(_)))));

    let state = begin(&mut importer);
    let state = photo().import(&mut importer, "demo", state, downloaded("a.lottie", b"{}"));
    let state = photo().import(
        &mut importer,
        "demo",
        state,
        ImportEvent::Converted(Err(Error::Webp("encoder".to_owned()))),
    );
    assert!(matches!(state, ImportState::Done(Err(Error::Webp(_)))));

    let state = begin(&mut importer);
    let state = photo().import(&mut importer, "demo", state, downloaded("noextension", b"x"));
    assert!(matches!(state, ImportState::Done(Err(Error::NoMimeType(_)))));

    let state = begin(&mut importer);
    let state = photo().import(&mut importer, "demo", state, downloaded("a.png", b"x"));
    let state = photo().import(
        &mut importer,
        "demo",
        state,
        ImportEvent::Uploaded(Err(Error::Reqwest("reset".to_owned()))),
    );
    assert!(matches!(state, ImportState::Done(Err(Error::Reqwest(_)))));
}

#[test]
fn missing_converter_fails_the_sticker() {
    let config = ImportConfig {
        converters: Converters { lottie: true, webm: false },
        ..ImportConfig::default()
    };
    let mut importer = Importer::<FileDatabase>::new(config, None);
    let state = begin(&mut importer);
    let state = photo().import(&mut importer, "demo", state, downloaded("clip.webm", b"webm"));
    assert!(matches!(
        state,
        ImportState::Done(Err(Error::UnsupportedFormat(UnsupportedFormat::Webm)))
    ));
}

#[test]
fn events_out_of_turn_leave_the_state() {
    let mut importer = Importer::<FileDatabase>::new(ImportConfig::default(), None);
    let state = photo().import(&mut importer, "demo", ImportState::Start, ImportEvent::Appended(Ok(())));
    assert!(matches!(state, ImportState::Start));
    let state = photo().import(&mut importer, "demo", ImportState::Downloading, ImportEvent::Begin);
    assert!(matches!(state, ImportState::Downloading));
    let done = ImportState::Done(Err(Error::AnimationLoadError));
    let state = photo().import(&mut importer, "demo", done, ImportEvent::Begin);
    assert!(matches!(state, ImportState::Done(Err(Error::AnimationLoadError))));
}

#[test]
fn outcome_of_a_sticker() {
    let sticker = |is_video: bool| Sticker {
        emoji: Some("🙂".to_owned()),
        image: photo(),
        thumbnail: None,
        positon: 4,
        pack_name: "demo".to_owned(),
        is_animated: false,
        is_video,
    };
    let picture = || {
        PhotoSize::picture(
            mstickerlib::image::Image {
                file_name: "a.webp".to_owned(),
                data: vec![1],
                width: 1,
                height: 1,
            },
            mstickerlib::tg::sticker::ImportedUrl::DryRun,
        )
    };
    let config = ImportConfig::default();
    match sticker(false).outcome(&config, picture(), None) {
        ImportOutcome::Imported(imported) => {
            assert_eq!(imported.tg_sticker.unwrap().index, Some(4));
            assert!(imported.thumbnail.is_none());
        },
        _ => panic!("expected an imported sticker"),
    }
    match sticker(false).outcome(&config, picture(), Some(picture())) {
        ImportOutcome::Imported(imported) => assert!(imported.thumbnail.is_some()),
        _ => panic!("expected an imported sticker"),
    }
    assert!(matches!(
        sticker(false).outcome(&config, Err(Error::AnimationLoadError), None),
        ImportOutcome::Failed(Error::AnimationLoadError)
    ));
    assert!(matches!(
        sticker(false).outcome(&config, picture(), Some(Err(Error::Webp("t".to_owned())))),
        ImportOutcome::Failed(Error::Webp(_))
    ));
    assert!(!sticker(false).wants_thumbnail(true));
    assert!(!sticker(false).wants_thumbnail(false));
    let mut with_thumbnail = sticker(false);
    with_thumbnail.thumbnail = Some(photo());
    assert!(with_thumbnail.wants_thumbnail(true));
    assert!(!with_thumbnail.wants_thumbnail(false));
    let keep = ImportConfig { keep_webm: true, ..ImportConfig::default() };
    assert!(matches!(sticker(true).outcome(&keep, picture(), None), ImportOutcome::Filtered));
    assert!(matches!(sticker(true).outcome(&config, picture(), None), ImportOutcome::Imported(_)));
}

#[test]
fn saved_sticker_goes_on_to_matrix() {
    let config = ImportConfig { save_to_disk: true, ..ImportConfig::default() };
    let mut importer = Importer::<FileDatabase>::new(config, None);
    let state = begin(&mut importer);
    let state = photo().import(&mut importer, "demo", state, downloaded("stickers/f.webp", b"webp"));
    match &state {
        ImportState::Saving { image, path } => {
            assert_eq!(image.data, b"webp".to_vec());
            assert_eq!(path, "./stickers/demo/f.webp");
        },
        _ => panic!("expected a save"),
    }
    assert_eq!(state.action(), ImportAction::Save);
    let state = photo().import(&mut importer, "demo", state, ImportEvent::Saved(Ok(())));
    assert!(matches!(state, ImportState::Uploading { .. }));
}

#[test]
fn a_sticker_that_cannot_be_saved_fails() {
    let config = ImportConfig { save_to_disk: true, dry_run: true, ..ImportConfig::default() };
    let mut importer = Importer::<FileDatabase>::new(config, None);
    let state = begin(&mut importer);
    let state = photo().import(&mut importer, "demo", state, downloaded("f.webp", b"webp"));
    let state = photo().import(
        &mut importer,
        "demo",
        state,
        ImportEvent::Saved(Err("read-only file system".to_owned())),
    );
    match state {
        ImportState::Done(Err(Error::IoError(reason))) => assert_eq!(reason, "read-only file system"),
        _ => panic!("expected an io error"),
    }
    let state = begin(&mut importer);
    let state = photo().import(&mut importer, "demo", state, downloaded("..", b"webp"));
    assert!(matches!(state, ImportState::Done(Err(_))));
}

#[test]
fn converted_sticker_is_saved_under_its_new_name() {
    let config = ImportConfig { save_to_disk: true, dry_run: true, ..ImportConfig::default() };
    let mut importer = Importer::<FileDatabase>::new(config, None);
    let state = begin(&mut importer);
    let state = photo().import(&mut importer, "pack", state, downloaded("dir/clip.webm", b"webm"));
    let encoded = Rendered { data: b"RIFF".to_vec(), width: 64, height: 32 };
    let state = photo().import(&mut importer, "pack", state, ImportEvent::Converted(Ok(encoded)));
    match &state {
        ImportState::Saving { image, path } => {
            assert_eq!(image.file_name, "dir/clip.webp");
            assert_eq!(path, "./stickers/pack/clip.webp");
        },
        _ => panic!("expected a save"),
    }
    let state = photo().import(&mut importer, "pack", state, ImportEvent::Saved(Ok(())));
    match state {
        ImportState::Done(Ok(picture)) => assert_eq!(picture.url.url(), "!!! DRY_RUN !!!"),
        _ => panic!("expected a picture"),
    }
}
