use s3_signer::number::parse_positive;
use s3_signer::text::{same_text, split, strip_first, strip_last, trim_end, trim_start};

#[test]
fn split_gives_one_piece_more_than_separators() {
    assert_eq!(split("a/b/c", b'/'), vec!["a", "b", "c"]);
    assert_eq!(split("abc", b'/'), vec!["abc"]);
    assert_eq!(split("", b'/'), vec![""]);
    assert_eq!(split("/", b'/'), vec!["", ""]);
    assert_eq!(split("a//b/", b'/'), vec!["a", "", "b", ""]);
    assert_eq!(split("k=v&x=y", b'&'), vec!["k=v", "x=y"]);
}

#[test]
fn split_keeps_characters_of_more_than_one_byte_whole() {
    assert_eq!(split("été/日本/𝄞", b'/'), vec!["été", "日本", "𝄞"]);
}

#[test]
fn parse_positive_reads_numbers_from_one_on() {
    assert_eq!(parse_positive("1"), Some(1));
    assert_eq!(parse_positive("42"), Some(42));
    assert_eq!(parse_positive("+42"), Some(42));
    assert_eq!(parse_positive("0042"), Some(42));
    assert_eq!(parse_positive("9223372036854775807"), Some(i64::MAX));
}

#[test]
fn parse_positive_refuses_all_else() {
    for text in [
        "",
        "+",
        "0",
        "000",
        "+0",
        "-1",
        "-0",
        "++1",
        "1+",
        "1 ",
        " 1",
        "1e3",
        "0x10",
        "9223372036854775808",
        "99999999999999999999999999",
        "٣",
        "1é",
    ] {
        assert_eq!(parse_positive(text), None, "{:?}", text);
    }
}

#[test]
fn same_text_compares_the_characters() {
    assert!(same_text("objects", "objects"));
    assert!(same_text("", ""));
    assert!(!same_text("object", "objects"));
    assert!(!same_text("Objects", "objects"));
}

#[test]
fn strip_first_takes_one_character_off() {
    assert_eq!(strip_first("/a/", b'/'), Some("a/"));
    assert_eq!(strip_first("//", b'/'), Some("/"));
    assert_eq!(strip_first("a/", b'/'), None);
    assert_eq!(strip_first("", b'/'), None);
    assert_eq!(strip_first("é/", b'/'), None);
    assert_eq!(strip_first("/é", b'/'), Some("é"));
}

#[test]
fn strip_last_takes_one_character_off() {
    assert_eq!(strip_last("/a/", b'/'), Some("/a"));
    assert_eq!(strip_last("//", b'/'), Some("/"));
    assert_eq!(strip_last("/a", b'/'), None);
    assert_eq!(strip_last("", b'/'), None);
    assert_eq!(strip_last("/é", b'/'), None);
    assert_eq!(strip_last("é/", b'/'), Some("é"));
}

#[test]
fn trim_takes_the_whole_run_off() {
    assert_eq!(trim_start("///a/b//", b'/'), "a/b//");
    assert_eq!(trim_end("///a/b//", b'/'), "///a/b");
    assert_eq!(trim_start("a", b'/'), "a");
    assert_eq!(trim_end("a", b'/'), "a");
    assert_eq!(trim_start("////", b'/'), "");
    assert_eq!(trim_end("////", b'/'), "");
    assert_eq!(trim_start("", b'/'), "");
    assert_eq!(trim_end("日本/", b'/'), "日本");
}
