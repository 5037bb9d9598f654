use cloudroom::hex::{hex_of, hex_text, pad, uuid};
use cloudroom::json::{object, Json};
use cloudroom::runtime::cursor_print::{capitalize, tail};
use cloudroom::runtime::files::{base64_encode, file_name, mime, under};
use cloudroom::runtime::md5::md5_hex;
use cloudroom::runtime::process::read_frame;
use cloudroom::session::native::stderr_tail;
use cloudroom::table::{is_before, Table};
use cloudroom::text::{
    chars_of, decimal_of, is_blank, join, lines_of, parse_u64, replace, signed_decimal_of, size,
    split_chars, string_of, strip_prefix, to_lower, trim, words_of,
};
use cloudroom::wire::{from_value, read_json, to_value, write_json};

fn texts(parts: &[Vec<char>]) -> Vec<String> {
    parts.iter().map(|p| string_of(p)).collect()
}

#[test]
fn numbers_are_written_and_read() {
    assert_eq!(decimal_of(0), "0");
    assert_eq!(decimal_of(u64::MAX), "18446744073709551615");
    assert_eq!(signed_decimal_of(-17), "-17");
    assert_eq!(signed_decimal_of(i32::MIN), "-2147483648");
    assert_eq!(parse_u64("+5"), Some(5));
    assert_eq!(parse_u64("007"), Some(7));
    assert_eq!(parse_u64("18446744073709551615"), Some(u64::MAX));
    assert_eq!(parse_u64("18446744073709551616"), None);
    assert_eq!(parse_u64(""), None);
    assert_eq!(parse_u64("+"), None);
    assert_eq!(parse_u64("-1"), None);
    assert_eq!(parse_u64("1 "), None);
}

#[test]
fn white_space_is_that_of_unicode() {
    assert_eq!(string_of(trim(&chars_of(" \u{3000}a b\u{85}\n"))), "a b");
    assert!(is_blank("\u{2003}\t\u{a0}"));
    assert!(!is_blank("\u{200b}"));
    assert_eq!(texts(&words_of(&chars_of("  a\tb \u{2028} c"))), ["a", "b", "c"]);
}

#[test]
fn lines_end_in_either_way() {
    assert_eq!(texts(&lines_of(&chars_of("a\r\nb\n\nc\r"))), ["a", "b", "", "c\r"]);
    assert_eq!(texts(&lines_of(&chars_of("a\n"))), ["a"]);
    assert!(lines_of(&chars_of("")).is_empty());
    assert_eq!(texts(&split_chars(&chars_of("a::b"), ':')), ["a", "", "b"]);
    assert_eq!(join(&vec!["a".to_owned(), "b".to_owned()], ", "), "a, b");
}

#[test]
fn parts_are_replaced_one_after_the_other() {
    let done = replace(&chars_of("aaa"), &chars_of("aa"), &chars_of("b"));
    assert_eq!(string_of(&done), "ba");
    assert_eq!(strip_prefix("Bearer x", "Bearer "), Some("x".to_owned()));
    assert_eq!(strip_prefix("bearer x", "Bearer "), None);
    assert_eq!(size("é€"), 5);
}

#[test]
fn letters_change_their_case() {
    assert_eq!(capitalize("straße"), "Straße");
    assert_eq!(capitalize("ßa"), "SSa");
    assert_eq!(capitalize("éa"), "Éa");
    assert_eq!(capitalize(""), "");
    assert_eq!(to_lower("ÀBC-1"), "Àbc-1");
}

#[test]
fn digests_are_those_of_the_standard() {
    assert_eq!(md5_hex(b""), "d41d8cd98f00b204e9800998ecf8427e");
    assert_eq!(md5_hex(b"abc"), "900150983cd24fb0d6963f7d28e17f72");
    assert_eq!(
        md5_hex(b"12345678901234567890123456789012345678901234567890123456789012345678901234567890"),
        "57edf4a22be3c955ac49da2e2107b67a"
    );
}

#[test]
fn bytes_are_written_in_base64() {
    assert_eq!(base64_encode(b""), "");
    assert_eq!(base64_encode(b"f"), "Zg==");
    assert_eq!(base64_encode(b"fo"), "Zm8=");
    assert_eq!(base64_encode(b"foobar"), "Zm9vYmFy");
    assert_eq!(base64_encode(&[0xfb, 0xff]), "+/8=");
}

#[test]
fn bytes_are_written_in_hex() {
    assert_eq!(hex_of(255), "ff");
    assert_eq!(hex_of(0), "0");
    assert_eq!(pad("ff", 4), "00ff");
    assert_eq!(hex_text(&[0, 171]), "00ab");
    let id = uuid(&[0, 1, 2, 3, 4, 5, 6, 7, 8, 9, 10, 11, 12, 13, 14, 15]);
    assert_eq!(id, "00010203-0405-4607-8809-0a0b0c0d0e0f");
}

#[test]
fn names_of_files_and_kinds_of_pictures() {
    assert_eq!(file_name("/a/b.PNG"), Some("b.PNG".to_owned()));
    assert_eq!(file_name("/a/.."), None);
    assert_eq!(mime("/a/b.PNG"), "image/png");
    assert_eq!(mime("photo.jpeg"), "image/jpeg");
    assert_eq!(under("/home", "x"), "/home/x");
    assert_eq!(under("/home/", "x"), "/home/x");
    assert_eq!(under("", "x"), "x");
}

#[test]
fn the_end_of_a_text_is_kept() {
    assert_eq!(tail("abcdef", 3), "def");
    assert_eq!(tail("é€x", 2), "€x");
    assert_eq!(tail("ab", 5), "ab");
}

#[test]
fn bytes_that_are_no_text_are_replaced_or_refused() {
    assert_eq!(stderr_tail(b"oops \xff\xfe end"), "oops \u{fffd}\u{fffd} end");
    assert_eq!(read_frame(b"{\"a\":\"\xff\"}\n").unwrap_err(), "invalid harness UTF-8");
    assert_eq!(read_frame(b"{}").unwrap_err(), "invalid or oversized harness frame");
    assert_eq!(read_frame(b"{\n").unwrap_err(), "malformed harness JSON");
    let (raw, value) = read_frame("{\"a\":\"é\"}\n".as_bytes()).unwrap();
    assert_eq!(raw, "{\"a\":\"é\"}\n");
    assert_eq!(value.field_text("a"), Some("é"));
}

#[test]
fn json_is_read_and_written() {
    let text = "{\"a\":[1,-2,true,null,\"x\\n\\u0001\"],\"b\":{}}";
    let value = read_json(text).unwrap();
    assert_eq!(value.field("a").items().len(), 5);
    assert_eq!(value.field("a").items()[0].as_u64(), Some(1));
    assert_eq!(value.field("a").items()[1].as_i64(), Some(-2));
    assert!(value.field("a").items()[2].is_true());
    assert!(value.field("a").items()[3].is_null());
    assert_eq!(value.field("a").items()[4].as_text(), Some("x\n\u{1}"));
    assert_eq!(write_json(&value), text);
    assert!(value.field("missing").is_null());
    assert!(read_json("{\"a\":1,}").is_none());
    assert!(read_json("").is_none());
    assert!(read_json("1 2").is_none());
}

#[test]
fn numbers_that_are_no_integers_are_carried_through() {
    let value = read_json("[0.1,1e300,18446744073709551615]").unwrap();
    assert_eq!(write_json(&value), "[0.1,1e+300,18446744073709551615]");
    assert_eq!(value.items()[0].as_u64(), None);
    let same = from_value(&to_value(&value));
    assert!(same.same(&value));
    assert!(!same.same(&read_json("[0.1,1e300,18446744073709551614]").unwrap()));
}

#[test]
fn the_last_of_equal_keys_counts() {
    let value = read_json("{\"a\":1,\"a\":2}").unwrap();
    assert_eq!(value.field("a").as_u64(), Some(2));
    let mut fields = object().with_text("b", "x").with("a", Json::uint(1));
    fields.set("b", Json::Null);
    assert_eq!(write_json(&Json::Object(fields)), "{\"a\":1,\"b\":null}");
}

#[test]
fn values_nested_too_deeply_are_not_read() {
    let deep = |n: usize| "[".repeat(n) + &"]".repeat(n);
    assert!(read_json(&deep(127)).is_some());
    assert!(read_json(&deep(128)).is_none());
}

#[test]
fn tables_are_in_order() {
    let mut table: Table<String> = Table::new();
    table.insert("b", "2".to_owned());
    table.insert("a", "1".to_owned());
    table.insert("B", "3".to_owned());
    table.insert("b", "4".to_owned());
    assert_eq!(table.len(), 3);
    let keys: Vec<&str> = (0..3).map(|i| table.key_at(i)).collect();
    assert_eq!(keys, ["B", "a", "b"]);
    assert_eq!(table.get("b").map(String::as_str), Some("4"));
    assert_eq!(table.remove("b"), Some("4".to_owned()));
    assert_eq!(table.remove("b"), None);
    assert!(!table.contains("b"));
    assert!(is_before("a", "ab"));
    assert!(!is_before("a", "a"));
}
