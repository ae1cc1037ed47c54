use rs_fanqie_downloader::api::{BookInfo, ChapterContent};
use rs_fanqie_downloader::error::FanqieError;
use rs_fanqie_downloader::export::{chapter_to_html, render_txt, sanitize_filename};
use rs_fanqie_downloader::strutil::{
    expand_tilde, i64_to_string, pad_right, repeat_str, str_eq, trim_spaces, truncate_string,
    u64_to_string,
};

#[test]
fn numbers_render_in_decimal() {
    assert_eq!(u64_to_string(0), "0");
    assert_eq!(u64_to_string(7), "7");
    assert_eq!(u64_to_string(12345), "12345");
    assert_eq!(u64_to_string(u64::MAX), format!("{}", u64::MAX));
    assert_eq!(i64_to_string(-42), "-42");
    assert_eq!(i64_to_string(0), "0");
    assert_eq!(i64_to_string(i64::MIN), format!("{}", i64::MIN));
}

#[test]
fn string_helpers_behave_like_their_specs() {
    assert!(str_eq("abc", "abc"));
    assert!(!str_eq("abc", "abd"));
    assert_eq!(pad_right("ab", 5), "ab   ");
    assert_eq!(pad_right("abcdef", 3), "abcdef");
    assert_eq!(repeat_str("-", 4), "----");
    assert_eq!(repeat_str("ab", 0), "");
    assert_eq!(trim_spaces("  a b \t\r\n"), "a b");
    assert_eq!(trim_spaces(""), "");
    assert_eq!(truncate_string("hello", 5), "hello");
    assert_eq!(truncate_string("hello world", 8), "hello...");
    assert_eq!(truncate_string("你好世界你好世界", 6), "你好世...");
}

#[test]
fn tilde_expansion_uses_the_handed_home() {
    assert_eq!(expand_tilde("~/books", "/home/me"), "/home/me/books");
    assert_eq!(expand_tilde("/abs/path", "/home/me"), "/abs/path");
    assert_eq!(expand_tilde("~", "/home/me"), "~");
}

#[test]
fn filenames_drop_reserved_characters() {
    assert_eq!(sanitize_filename("  my<book>/name?  "), "my_book__name_");
    assert_eq!(sanitize_filename("a:b\"c\\d|e*f"), "a_b_c_d_e_f");
    assert_eq!(sanitize_filename("plain name"), "plain name");
}

#[test]
fn chapter_html_escapes_and_wraps_paragraphs() {
    let got = chapter_to_html("A <B>", "x & y\n  z  ");
    let expected = "<?xml version=\"1.0\" encoding=\"utf-8\"?>\n<!DOCTYPE html>\n<html xmlns=\"http://www.w3.org/1999/xhtml\">\n<head>\n    <title>A &lt;B&gt;</title>\n</head>\n<body>\n    <h1>A &lt;B&gt;</h1>\n    <p>x &amp; y</p>\n<p>z</p>\n</body>\n</html>";
    assert_eq!(got, expected);
}

#[test]
fn txt_document_layout() {
    let book = BookInfo {
        book_id: "1".to_string(),
        book_name: "One".to_string(),
        author: "a1".to_string(),
        abstract_field: None,
        abstract_opt: None,
        cover: None,
        creation_status: None,
        word_count: None,
        chapter_count: None,
    };
    let chapters = vec![
        ChapterContent { chapter_id: "c1".to_string(), title: "T1".to_string(), content: "B1".to_string() },
        ChapterContent { chapter_id: "c2".to_string(), title: "T2".to_string(), content: "B2".to_string() },
    ];
    let expected = format!(
        "书名: One\n作者: a1\n\n{}\n\n\nT1\n\nB1\n\n\nT2\n\nB2\n\n",
        "=".repeat(50),
    );
    assert_eq!(render_txt(&book, &chapters), expected);
}

#[test]
fn error_messages_name_their_context() {
    assert_eq!(FanqieError::Timeout.message(), "request timed out");
    assert_eq!(FanqieError::AllNodesUnavailable.message(), "all api nodes unavailable");
    assert_eq!(FanqieError::RateLimited.message(), "rate limited");
    assert_eq!(
        FanqieError::BookNotFound("77".to_string()).message(),
        "book not found or delisted: 77"
    );
    assert_eq!(
        FanqieError::Network("http://a: refused".to_string()).message(),
        "network error: http://a: refused"
    );
    assert_eq!(
        FanqieError::ConfigLoad("missing api_sources".to_string()).message(),
        "config load failed: missing api_sources"
    );
}
