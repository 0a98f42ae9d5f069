use mstickerlib::image::Image;
use mstickerlib::matrix::sticker::{Image as Picture, Sticker, TgStickerInfo};
use mstickerlib::matrix::sticker_formats::ponies::{MetaData, Usage};
use mstickerlib::matrix::sticker_formats::{maunium, ponies};
use mstickerlib::matrix::stickerpack::{StickerPack, TgPackInfo};
use mstickerlib::matrix::Mxc;
use mstickerlib::stickerpicker;
use mstickerlib::sub_commands::import::Sticker as UploadedSticker;
use mstickerlib::tg::stickerpack::StickerPack as TgStickerPack;

fn meta(w: u32, mimetype: &str) -> MetaData {
    MetaData { w, h: w, size: 100, mimetype: mimetype.to_owned() }
}

fn picture(url: &str, w: u32) -> Picture {
    Picture { url: Mxc::from_url(url.to_owned()), meta_data: meta(w, "image/webp") }
}

fn sticker(body: &str, url: &str, thumbnail: Option<Picture>, emoticon: Option<&str>) -> Sticker {
    Sticker {
        body: body.to_owned(),
        image: picture(url, 512),
        thumbnail,
        emoticon: emoticon.map(|e| e.to_owned()),
        emoji: vec![body.to_owned()],
        tg_sticker: Some(TgStickerInfo {
            pack_name: "demo".to_owned(),
            bot_api_id: Some("id".to_owned()),
            client_api_id: None,
            emoji: vec![body.to_owned()],
            index: Some(0),
        }),
    }
}

fn pack(stickers: Vec<Sticker>) -> StickerPack {
    StickerPack {
        title: "Demo".to_owned(),
        id: "tg_name_demo".to_owned(),
        tg_pack: Some(TgPackInfo { name: "demo".to_owned(), title: "Demo".to_owned() }),
        stickers,
    }
}

#[test]
fn meta_data_of_an_image() {
    let image = Image { file_name: "a/b.gif".to_owned(), data: vec![0; 7], width: 3, height: 4 };
    let meta = MetaData::try_from(&image).unwrap();
    assert_eq!((meta.w, meta.h, meta.size), (3, 4, 7));
    assert_eq!(meta.mimetype, "image/gif");
    let image = Image { file_name: "b".to_owned(), data: vec![0; 7], width: 3, height: 4 };
    assert!(MetaData::try_from(&image).is_err());
}

#[test]
fn legacy_sticker_without_thumbnail_shows_its_picture() {
    let legacy = maunium::Sticker::from_sticker(&sticker("😀", "mxc://a", None, None));
    assert_eq!(legacy.body, "😀");
    assert_eq!(legacy.url.url(), "mxc://a");
    assert_eq!(legacy.id, "mxc://a");
    assert_eq!(legacy.msgtype, "m.sticker");
    assert_eq!(legacy.info.thumbnail_url.url(), "mxc://a");
    assert_eq!(legacy.info.thumbnail_info.w, 512);
    assert_eq!(legacy.info.image_info.w, 512);
    assert_eq!(legacy.info.image_info.mimetype, "image/webp");
    let origin = legacy.tg_sticker.as_ref().unwrap();
    assert_eq!(origin.pack.short_name, "demo");
    assert_eq!(origin.pack.id, "tg_name_demo");
    assert_eq!(origin.id, "id");
    assert_eq!(origin.emoticons, vec!["😀"]);
}

#[test]
fn legacy_sticker_without_origin_has_no_origin_block() {
    let mut plain = sticker("x", "mxc://a", None, None);
    plain.tg_sticker = None;
    assert!(maunium::Sticker::from_sticker(&plain).tg_sticker.is_none());
}

#[test]
fn legacy_sticker_names_the_client_id_if_there_is_no_bot_id() {
    let mut read = sticker("x", "mxc://a", None, None);
    read.tg_sticker = Some(TgStickerInfo {
        pack_name: "demo".to_owned(),
        bot_api_id: None,
        client_api_id: Some("42".to_owned()),
        emoji: vec!["a".to_owned(), "b".to_owned()],
        index: None,
    });
    let origin = maunium::Sticker::from_sticker(&read).tg_sticker.unwrap();
    assert_eq!(origin.id, "42");
    assert_eq!(origin.emoticons, vec!["a", "b"]);
    read.tg_sticker.as_mut().unwrap().client_api_id = None;
    assert_eq!(maunium::Sticker::from_sticker(&read).tg_sticker.unwrap().id, "");
}

#[test]
fn legacy_sticker_read_back_tells_the_same_origin() {
    let value = sticker("😀", "mxc://a", Some(picture("mxc://t", 128)), None);
    let read = Sticker::from_maunium(&maunium::Sticker::from_sticker(&value));
    assert_eq!(read.body, "😀");
    assert_eq!(read.image.url.url(), "mxc://a");
    assert_eq!(read.thumbnail.as_ref().unwrap().url.url(), "mxc://t");
    assert_eq!(read.emoji, vec!["😀"]);
    let origin = read.tg_sticker.unwrap();
    assert_eq!(origin.pack_name, "demo");
    assert_eq!(origin.emoji, vec!["😀"]);
    assert_eq!(origin.client_api_id.as_deref(), Some("id"));
}

#[test]
fn legacy_sticker_with_thumbnail_keeps_it() {
    let legacy =
        maunium::Sticker::from_sticker(&sticker("😀", "mxc://a", Some(picture("mxc://t", 128)), None));
    assert_eq!(legacy.url.url(), "mxc://a");
    assert_eq!(legacy.info.thumbnail_url.url(), "mxc://t");
    assert_eq!(legacy.info.thumbnail_info.w, 128);
    assert_eq!(legacy.info.image_info.w, 512);
}

#[test]
fn legacy_pack_keeps_the_order() {
    let legacy = maunium::StickerPack::from_pack(&pack(vec![
        sticker("a", "mxc://1", None, None),
        sticker("b", "mxc://2", None, None),
        sticker("c", "mxc://3", None, None),
    ]));
    assert_eq!(legacy.title, "Demo");
    assert_eq!(legacy.id, "tg_name_demo");
    assert_eq!(legacy.tg_pack.as_ref().unwrap().short_name, "demo");
    assert_eq!(legacy.tg_pack.as_ref().unwrap().hash, "");
    assert!(legacy.stickers.iter().all(|s| s.tg_sticker.as_ref().unwrap().pack.short_name == "demo"));
    let read = StickerPack::from_maunium(&legacy);
    assert_eq!(read.tg_pack.as_ref().unwrap().name, "demo");
    assert_eq!(read.stickers.len(), 3);
    let mut nameless = pack(Vec::new());
    nameless.tg_pack = None;
    assert!(maunium::StickerPack::from_pack(&nameless).tg_pack.is_none());
    let urls: Vec<&str> = legacy.stickers.iter().map(|s| s.url.url().as_str()).collect();
    assert_eq!(urls, vec!["mxc://1", "mxc://2", "mxc://3"]);
}

#[test]
fn reading_a_legacy_sticker_drops_a_thumbnail_that_is_the_picture() {
    let legacy = maunium::Sticker {
        body: "😀".to_owned(),
        url: Mxc::from_url("mxc://a".to_owned()),
        info: maunium::StickerInfo {
            image_info: meta(512, "image/webp"),
            thumbnail_url: Mxc::from_url("mxc://a".to_owned()),
            thumbnail_info: meta(512, "image/webp"),
        },
        msgtype: "m.sticker".to_owned(),
        id: "x".to_owned(),
        tg_sticker: Some(maunium::TgStickerInfo {
            pack: maunium::TgPackInfo { id: "1".to_owned(), short_name: "demo".to_owned() },
            id: "42".to_owned(),
            emoticons: vec!["😀".to_owned(), "😁".to_owned()],
        }),
    };
    let read = Sticker::from_maunium(&legacy);
    assert_eq!(read.body, "😀");
    assert_eq!(read.image.url.url(), "mxc://a");
    assert!(read.thumbnail.is_none());
    assert!(read.emoticon.is_none());
    assert_eq!(read.emoji, vec!["😀", "😁"]);
    let origin = read.tg_sticker.unwrap();
    assert_eq!(origin.pack_name, "demo");
    assert_eq!(origin.client_api_id.as_deref(), Some("42"));
    assert_eq!(origin.bot_api_id, None);
    assert_eq!(origin.index, None);
}

#[test]
fn reading_a_legacy_sticker_keeps_a_thumbnail_of_its_own() {
    let legacy = maunium::Sticker {
        body: "x".to_owned(),
        url: Mxc::from_url("mxc://a".to_owned()),
        info: maunium::StickerInfo {
            image_info: meta(512, "image/webp"),
            thumbnail_url: Mxc::from_url("mxc://a".to_owned()),
            thumbnail_info: meta(128, "image/webp"),
        },
        msgtype: "m.sticker".to_owned(),
        id: "x".to_owned(),
        tg_sticker: None,
    };
    let read = Sticker::from_maunium(&legacy);
    assert_eq!(read.thumbnail.as_ref().unwrap().meta_data.w, 128);
    assert!(read.emoji.is_empty());
    assert!(read.tg_sticker.is_none());
    let pack = StickerPack::from_maunium(&maunium::StickerPack {
        title: "T".to_owned(),
        id: "i".to_owned(),
        tg_pack: Some(maunium::TgPackRootInfo { short_name: "demo".to_owned(), hash: "h".to_owned() }),
        stickers: vec![legacy],
    });
    assert_eq!(pack.title, "T");
    assert_eq!(pack.tg_pack.as_ref().unwrap().name, "demo");
    assert_eq!(pack.tg_pack.as_ref().unwrap().title, "demo");
    assert_eq!(pack.stickers.len(), 1);
    assert_eq!(pack.stickers[0].label(), None);
}

#[test]
fn modern_pack_keys_by_position_or_code() {
    let modern = ponies::StickerPack::from_pack(&pack(vec![
        sticker("a", "mxc://1", None, None),
        sticker("b", "mxc://2", None, Some("wave")),
        sticker("c", "mxc://3", None, None),
    ]));
    assert_eq!(modern.pack.display_name, "Demo");
    assert_eq!(modern.pack.avatar_url, None);
    let keys: Vec<&str> = modern.images.keys().map(|k| k.as_str()).collect();
    assert_eq!(keys, vec!["0000", "wave", "0002"]);
    let first = &modern.images["0000"];
    assert_eq!(first.body, "a");
    assert_eq!(first.url, "mxc://1");
    assert_eq!(first.info.mimetype, "image/webp");
    assert_eq!(first.usage, vec![Usage::Sticker]);
    assert_eq!(modern.images["wave"].usage, vec![Usage::Sticker, Usage::Emoticon]);
    assert_eq!(modern.images["0002"].url, "mxc://3");
}

#[test]
fn modern_pack_pads_to_four_digits() {
    let stickers = (0..12).map(|i| sticker("s", &format!("mxc://{i}"), None, None)).collect();
    let modern = ponies::StickerPack::from_pack(&pack(stickers));
    assert_eq!(modern.images.len(), 12);
    assert_eq!(modern.images.get_index(11).unwrap().0, "0011");
    assert_eq!(modern.images.get_index(11).unwrap().1.url, "mxc://11");
}

#[test]
fn modern_pack_replaces_a_taken_key_in_place() {
    let modern = ponies::StickerPack::from_pack(&pack(vec![
        sticker("a", "mxc://1", None, Some("0001")),
        sticker("b", "mxc://2", None, None),
        sticker("c", "mxc://3", None, Some("0001")),
    ]));
    let keys: Vec<&str> = modern.images.keys().map(|k| k.as_str()).collect();
    assert_eq!(keys, vec!["0001"]);
    assert_eq!(modern.images["0001"].url, "mxc://3");
}

#[test]
fn sticker_widget_is_a_sticker_picker() {
    let widget = stickerpicker::StickerWidget::new("https://picker".to_owned(), "@me:x".to_owned());
    assert_eq!(widget.content.stype, "m.stickerpicker");
    assert_eq!(widget.content.url, "https://picker");
    assert_eq!(widget.content.name, "Stickerpicker");
    assert_eq!(widget.content.data, "");
    assert_eq!(widget.sender, "@me:x");
    assert_eq!(widget.state_key, "stickerpicker");
    assert_eq!(widget.stype, "m.widget");
    assert_eq!(widget.id, "stickerpicker");
    assert_eq!(stickerpicker::default_msgtype(), "m.sticker");
}

fn uploaded(id: &str, width: u32, height: u32) -> UploadedSticker {
    UploadedSticker {
        file_hash: [0; 64],
        mxc_url: format!("mxc://{id}"),
        file_id: id.to_owned(),
        emoji: "😀".to_owned(),
        width,
        height,
        file_size: 1234,
        mimetype: "image/webp".to_owned(),
    }
}

#[test]
fn divisor_rounds_the_larger_side_to_units_of_256() {
    assert_eq!(stickerpicker::divisor(512, 512), 2);
    assert_eq!(stickerpicker::divisor(512, 100), 2);
    assert_eq!(stickerpicker::divisor(100, 512), 2);
    assert_eq!(stickerpicker::divisor(256, 256), 1);
    assert_eq!(stickerpicker::divisor(383, 10), 1);
    assert_eq!(stickerpicker::divisor(384, 10), 2);
    assert_eq!(stickerpicker::divisor(128, 0), 1);
    assert_eq!(stickerpicker::divisor(127, 127), 0);
    assert_eq!(stickerpicker::divisor(u32::MAX, 0), 16777216);
}

#[test]
fn picker_pack_scales_the_pictures() {
    let tg_pack = TgStickerPack {
        name: "demo".to_owned(),
        title: "Demo".to_owned(),
        is_animated: false,
        is_video: false,
        stickers: Vec::new(),
    };
    let stickers = vec![uploaded("a", 512, 512), uploaded("b", 512, 300)];
    let pack = stickerpicker::StickerPack::new(&tg_pack, &stickers);
    assert_eq!(pack.title, "Demo");
    assert_eq!(pack.id, "tg_name_demo");
    assert_eq!(pack.tg_pack.short_name, "demo");
    assert_eq!(pack.tg_pack.hash, "unimplemented!");
    assert_eq!(pack.stickers.len(), 2);
    let first = &pack.stickers[0];
    assert_eq!(first.body, "😀");
    assert_eq!(first.url, "mxc://a");
    assert_eq!((first.info.metadata.w, first.info.metadata.h), (256, 256));
    assert_eq!(first.info.metadata.size, 1234);
    assert_eq!(first.info.metadata.mimetype, "image/webp");
    assert_eq!(first.info.thumbnail_url, "mxc://a");
    assert_eq!((first.info.thumbnail_info.w, first.info.thumbnail_info.h), (256, 256));
    assert_eq!(first.msgtype, "m.sticker");
    assert_eq!(first.id, "tg_file_id_a");
    assert_eq!(first.tg_sticker.pack.id, "tg_file_id_a");
    assert_eq!(first.tg_sticker.pack.short_name, "demo");
    assert_eq!(first.tg_sticker.id, "a");
    assert_eq!(first.tg_sticker.emoticons, vec!["😀"]);
    let second = &pack.stickers[1];
    assert_eq!((second.info.metadata.w, second.info.metadata.h), (256, 150));
}

#[test]
fn picker_pack_is_read_as_a_modern_pack() {
    let entry = |url: &str| maunium::Sticker {
        body: "😀".to_owned(),
        url: Mxc::from_url(url.to_owned()),
        info: maunium::StickerInfo {
            image_info: meta(512, "image/webp"),
            thumbnail_url: Mxc::from_url("mxc://thumb".to_owned()),
            thumbnail_info: meta(128, "image/webp"),
        },
        msgtype: "m.sticker".to_owned(),
        id: "x".to_owned(),
        tg_sticker: None,
    };
    let single = ponies::Sticker::from_maunium(&entry("mxc://a"));
    assert_eq!(single.body, "😀");
    assert_eq!(single.url, "mxc://a");
    assert_eq!(single.info.w, 512);
    assert_eq!(single.usage, vec![Usage::Sticker]);
    let modern = ponies::StickerPack::from_maunium(&maunium::StickerPack {
        title: "Demo".to_owned(),
        id: "tg_name_demo".to_owned(),
        tg_pack: None,
        stickers: vec![entry("mxc://a"), entry("mxc://b")],
    });
    assert_eq!(modern.pack.display_name, "Demo");
    let keys: Vec<&str> = modern.images.keys().map(|k| k.as_str()).collect();
    assert_eq!(keys, vec!["0000", "0001"]);
    assert_eq!(modern.images["0001"].url, "mxc://b");
    assert_eq!(modern.images["0001"].info.w, 512);
}
