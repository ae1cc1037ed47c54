use rs_fanqie_downloader::api::{
    BookDetailData, BookDetailResponse, BookInfo, SearchData, SearchItem, SearchResponse,
    SearchTab,
};
use rs_fanqie_downloader::error::FanqieError;
use rs_fanqie_downloader::search::{
    book_info_from_detail, extract_search_books, format_book_info, format_search_results,
};

fn book(id: &str, name: &str, author: &str, status: Option<&str>) -> BookInfo {
    BookInfo {
        book_id: id.to_string(),
        book_name: name.to_string(),
        author: author.to_string(),
        abstract_field: None,
        abstract_opt: None,
        cover: None,
        creation_status: status.map(|s| s.to_string()),
        word_count: None,
        chapter_count: None,
    }
}

#[test]
fn search_books_come_from_the_book_tab() {
    let resp = SearchResponse {
        code: 200,
        data: Some(SearchData {
            search_tabs: Some(vec![
                SearchTab { tab_type: 1, data: Some(vec![SearchItem { book_data: Some(vec![book("x", "X", "ax", None)]) }]) },
                SearchTab {
                    tab_type: 3,
                    data: Some(vec![
                        SearchItem { book_data: Some(vec![book("1", "One", "a1", None)]) },
                        SearchItem { book_data: None },
                        SearchItem { book_data: Some(vec![book("2", "Two", "a2", None), book("3", "Three", "a3", None)]) },
                    ]),
                },
                SearchTab { tab_type: 3, data: Some(vec![SearchItem { book_data: Some(vec![book("y", "Y", "ay", None)]) }]) },
            ]),
        }),
    };
    let r = extract_search_books(resp).unwrap();
    assert_eq!(r.total, 3);
    let ids: Vec<&str> = r.books.iter().map(|b| b.book_id.as_str()).collect();
    assert_eq!(ids, vec!["1", "2", "3"]);
}

#[test]
fn search_error_code_is_surfaced() {
    let resp = SearchResponse { code: 502, data: None };
    match extract_search_books(resp) {
        Err(FanqieError::ApiRequest(m)) => {
            assert_eq!(m, "search request returned code 502");
        },
        other => panic!("unexpected: {:?}", other.map(|r| r.total)),
    }
}

#[test]
fn search_without_book_tab_is_empty() {
    let resp = SearchResponse {
        code: 200,
        data: Some(SearchData { search_tabs: Some(vec![SearchTab { tab_type: 1, data: None }]) }),
    };
    let r = extract_search_books(resp).unwrap();
    assert_eq!(r.total, 0);
    assert!(r.books.is_empty());
}

#[test]
fn detail_decision_owes_success_exactly_when_book_is_there() {
    let b = book("1", "One", "a1", None);
    let resp = BookDetailResponse {
        code: 200,
        data: Some(BookDetailData { code: Some(0), data: Some(b.clone()) }),
    };
    assert_eq!(book_info_from_detail(resp, "1"), Ok(b));
    let resp = BookDetailResponse { code: 200, data: Some(BookDetailData { code: Some(0), data: None }) };
    assert_eq!(
        book_info_from_detail(resp, "1"),
        Err(FanqieError::BookNotFound("1".to_string()))
    );
    let resp = BookDetailResponse { code: 404, data: None };
    assert_eq!(
        book_info_from_detail(resp, "zzz"),
        Err(FanqieError::BookNotFound("zzz".to_string()))
    );
}

#[test]
fn status_and_abstract_accessors() {
    assert_eq!(book("1", "n", "a", Some("0")).get_status(), "已完结");
    assert_eq!(book("1", "n", "a", Some("1")).get_status(), "连载中");
    assert_eq!(book("1", "n", "a", Some("2")).get_status(), "");
    assert_eq!(book("1", "n", "a", None).get_status(), "");
    let mut b = book("1", "n", "a", None);
    assert_eq!(b.get_abstract(), "");
    b.abstract_opt = Some("alt".to_string());
    assert_eq!(b.get_abstract(), "alt");
    b.abstract_field = Some("main".to_string());
    assert_eq!(b.get_abstract(), "main");
}

#[test]
fn empty_search_listing_is_the_fixed_notice() {
    assert_eq!(format_search_results(&vec![]), "未找到相关书籍");
}

#[test]
fn search_listing_matches_the_table_layout() {
    let books = vec![book("7022", "Long Name Book", "someone", Some("0"))];
    let expected = format!(
        "\n找到 {} 本书籍:\n\n{:<15} {:<25} {:<15} {:<8}\n{}\n{:<15} {:<25} {:<15} {:<8}\n",
        1,
        "书籍ID",
        "书名",
        "作者",
        "状态",
        "-".repeat(65),
        "7022",
        "Long Name Book",
        "someone",
        "已完结",
    );
    assert_eq!(format_search_results(&books), expected);
}

#[test]
fn long_names_are_shortened_in_the_listing() {
    let books = vec![book(
        "1",
        "abcdefghijklmnopqrstuvwxyz",
        "toolongauthorname",
        None,
    )];
    let got = format_search_results(&books);
    assert!(got.contains("abcdefghijklmnopqrs..."));
    assert!(got.contains("toolongau..."));
}

#[test]
fn book_card_matches_the_layout() {
    let mut b = book("1", "One", "a1", None);
    b.abstract_field = Some("short abstract".to_string());
    let expected = format!(
        "{}\n书名: One\n作者: a1\n章节数: 12\n{}\n简介:\nshort abstract\n{}\n",
        "=".repeat(50),
        "-".repeat(50),
        "=".repeat(50),
    );
    assert_eq!(format_book_info(&b, Some(12)), expected);
    let plain = book("1", "One", "a1", None);
    let expected = format!(
        "{}\n书名: One\n作者: a1\n{}\n{}\n",
        "=".repeat(50),
        "-".repeat(50),
        "=".repeat(50),
    );
    assert_eq!(format_book_info(&plain, None), expected);
}
