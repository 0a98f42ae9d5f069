use mstickerlib::image::Image;
use mstickerlib::text::{
    copy_bytes, copy_optional, copy_strings, decimal, decimal_padded4, reversed,
};

#[test]
fn decimal_writes_numbers_without_leading_zeros() {
    assert_eq!(decimal(0), "0");
    assert_eq!(decimal(7), "7");
    assert_eq!(decimal(10), "10");
    assert_eq!(decimal(255), "255");
    assert_eq!(decimal(1234567890), "1234567890");
    assert_eq!(decimal(u64::MAX), "18446744073709551615");
}

#[test]
fn padded_numbers_have_four_digits_at_least() {
    assert_eq!(decimal_padded4(0), "0000");
    assert_eq!(decimal_padded4(9), "0009");
    assert_eq!(decimal_padded4(10), "0010");
    assert_eq!(decimal_padded4(99), "0099");
    assert_eq!(decimal_padded4(100), "0100");
    assert_eq!(decimal_padded4(999), "0999");
    assert_eq!(decimal_padded4(1000), "1000");
    assert_eq!(decimal_padded4(9999), "9999");
    assert_eq!(decimal_padded4(10000), "10000");
    assert_eq!(decimal_padded4(123456), "123456");
}

#[test]
fn copies_are_equal() {
    assert_eq!(copy_bytes(&vec![1, 2, 3]), vec![1, 2, 3]);
    assert_eq!(copy_bytes(&Vec::new()), Vec::<u8>::new());
    assert_eq!(copy_strings(&vec!["a".to_owned(), "😀".to_owned()]), vec!["a", "😀"]);
    assert_eq!(copy_optional(&Some("x".to_owned())), Some("x".to_owned()));
    assert_eq!(copy_optional(&None), None);
}

#[test]
fn save_path_is_in_the_directory_of_the_pack() {
    let image = |name: &str| Image { file_name: name.to_owned(), data: Vec::new(), width: 1, height: 1 };
    assert_eq!(image("stickers/file_3.webp").save_path("demo").unwrap(), "./stickers/demo/file_3.webp");
    assert_eq!(image("plain.gif").save_path("p").unwrap(), "./stickers/p/plain.gif");
    assert_eq!(image("a/b/").save_path("p").unwrap(), "./stickers/p/b");
    assert_eq!(image("a/..").save_path("p"), None);
    assert_eq!(image("").save_path("p"), None);
}

#[test]
fn reversed_turns_a_list_around() {
    assert_eq!(reversed(vec![1, 2, 3]), vec![3, 2, 1]);
    assert_eq!(reversed(vec!["a".to_owned()]), vec!["a"]);
    assert_eq!(reversed(Vec::<u8>::new()), Vec::<u8>::new());
}
