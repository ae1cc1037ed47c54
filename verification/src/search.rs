use vstd::prelude::*;
use vstd::string::StringExecFns;

use crate::api::{
    spec_abstract, spec_status, BookDetailResponse, BookInfo, SearchItem, SearchResponse,
    SearchTab,
};
use crate::error::FanqieError;
use crate::strutil::{
    spec_idigits, spec_pad_right, spec_repeat, spec_truncated, spec_udigits, i64_to_string,
    pad_right, repeat_str, truncate_string, u64_to_string,
};

verus! {

/// What a search yielded: the books of the result tab, and how many.
pub struct SearchResult {
    pub books: Vec<BookInfo>,
    pub total: usize,
}

/// The first tab of the fixed book tab type, which is the one whose items
/// a search reads.
pub open spec fn spec_first_book_tab(tabs: Seq<SearchTab>) -> Option<SearchTab>
    decreases tabs.len(),
{
    if tabs.len() == 0 {
        None
    } else if tabs[0].tab_type == 3 {
        Some(tabs[0])
    } else {
        spec_first_book_tab(tabs.drop_first())
    }
}

/// The books of a run of search items, in order, with itemless entries
/// skipped.
pub open spec fn spec_items_books(items: Seq<SearchItem>) -> Seq<BookInfo>
    decreases items.len(),
{
    if items.len() == 0 {
        Seq::empty()
    } else {
        spec_items_books(items.drop_last()) + match items.last().book_data {
            Some(books) => books@,
            None => Seq::empty(),
        }
    }
}

/// The books a search response carries: the concatenated book data of the
/// first book-type tab's items, or nothing when no such tab exists.
pub open spec fn spec_search_books(resp: SearchResponse) -> Seq<BookInfo> {
    match resp.data {
        Some(d) => match d.search_tabs {
            Some(tabs) => match spec_first_book_tab(tabs@) {
                Some(tab) => match tab.data {
                    Some(items) => spec_items_books(items@),
                    None => Seq::empty(),
                },
                None => Seq::empty(),
            },
            None => Seq::empty(),
        },
        None => Seq::empty(),
    }
}

proof fn lemma_first_book_tab_at(tabs: Seq<SearchTab>, i: int)
    requires
        0 <= i < tabs.len(),
        forall|j: int| 0 <= j < i ==> (#[trigger] tabs[j]).tab_type != 3,
        tabs[i].tab_type == 3,
    ensures
        spec_first_book_tab(tabs) == Some(tabs[i]),
    decreases i,
{
    if i > 0 {
        let rest = tabs.drop_first();
        assert forall|j: int| 0 <= j < i - 1 implies (#[trigger] rest[j]).tab_type != 3 by {
            assert(rest[j] == tabs[j + 1]);
        }
        lemma_first_book_tab_at(rest, i - 1);
    }
}

proof fn lemma_first_book_tab_none(tabs: Seq<SearchTab>)
    requires
        forall|j: int| 0 <= j < tabs.len() ==> (#[trigger] tabs[j]).tab_type != 3,
    ensures
        spec_first_book_tab(tabs) is None,
    decreases tabs.len(),
{
    if tabs.len() > 0 {
        let rest = tabs.drop_first();
        assert forall|j: int| 0 <= j < rest.len() implies (#[trigger] rest[j]).tab_type != 3 by {
            assert(rest[j] == tabs[j + 1]);
        }
        lemma_first_book_tab_none(rest);
    }
}

/// Collects the books of one tab's items, in order.
fn collect_tab_books(items: Vec<SearchItem>) -> (r: Vec<BookInfo>)
    ensures
        r@ == spec_items_books(items@),
{
    let ghost all = items@;
    let mut rest = items;
    let mut books: Vec<BookInfo> = Vec::new();
    let mut i: usize = 0;
    let n = rest.len();
    proof {
        assert(all.subrange(0, 0) =~= Seq::<SearchItem>::empty());
    }
    #[verifier::loop_isolation(false)]
    while i < n
        invariant
            i <= n,
            n == all.len(),
            rest@ =~= all.subrange(i as int, all.len() as int),
            books@ == spec_items_books(all.subrange(0, i as int)),
        decreases n - i,
    {
        let item = rest.remove(0);
        proof {
            assert(item == all[i as int]);
            assert(rest@ =~= all.subrange(i as int + 1, all.len() as int));
            let longer = all.subrange(0, i as int + 1);
            assert(longer.drop_last() =~= all.subrange(0, i as int));
            assert(longer.last() == all[i as int]);
        }
        match item.book_data {
            Some(mut bd) => {
                books.append(&mut bd);
            },
            None => {
                proof {
                    assert(books@ + Seq::<BookInfo>::empty() =~= books@);
                }
            },
        }
        i = i + 1;
    }
    proof {
        assert(all.subrange(0, all.len() as int) =~= all);
    }
    books
}

/// What a search response means: a non-success code is an error carrying
/// that code; otherwise the result holds exactly the books of the first
/// book-type tab, in their reported order, and their count.
pub fn extract_search_books(resp: SearchResponse) -> (r: Result<SearchResult, FanqieError>)
    ensures
        r is Ok <==> resp.code == 200,
        r matches Ok(sr) ==> sr.books@ == spec_search_books(resp) && sr.total == spec_search_books(
            resp,
        ).len(),
        r matches Err(e) ==> (e matches FanqieError::ApiRequest(s) && s@
            == "search request returned code "@ + spec_idigits(resp.code as int)),
{
    if resp.code != 200 {
        let mut m = "search request returned code ".to_owned();
        m.append(i64_to_string(resp.code as i64).as_str());
        return Err(FanqieError::ApiRequest(m));
    }
    let tabs: Option<Vec<SearchTab>> = match resp.data {
        Some(d) => d.search_tabs,
        None => None,
    };
    let books: Vec<BookInfo> = match tabs {
        Some(tabs) => {
            let ghost all = tabs@;
            let mut rest = tabs;
            let mut i: usize = 0;
            let n = rest.len();
            let mut found: Option<Vec<SearchItem>> = None;
            #[verifier::loop_isolation(false)]
            while i < n
                invariant
                    i <= n,
                    n == all.len(),
                    rest@ =~= all.subrange(i as int, all.len() as int),
                    found is None,
                    forall|j: int| 0 <= j < i ==> (#[trigger] all[j]).tab_type != 3,
                decreases n - i,
            {
                let tab = rest.remove(0);
                proof {
                    assert(tab == all[i as int]);
                    assert(rest@ =~= all.subrange(i as int + 1, all.len() as int));
                }
                if tab.tab_type == 3 {
                    proof {
                        lemma_first_book_tab_at(all, i as int);
                    }
                    found = tab.data;
                    break ;
                }
                i = i + 1;
            }
            proof {
                if i == n {
                    lemma_first_book_tab_none(all);
                }
            }
            match found {
                Some(items) => collect_tab_books(items),
                None => Vec::new(),
            }
        },
        None => Vec::new(),
    };
    let total = books.len();
    Ok(SearchResult { books, total })
}

/// The book a detail response carries, behind its double wrap.
pub open spec fn spec_detail_book(resp: BookDetailResponse) -> Option<BookInfo> {
    match resp.data {
        Some(d) => d.data,
        None => None,
    }
}

/// What a detail response means: the book it carries when the request
/// succeeded, and a not-found error naming the book otherwise — a success
/// is owed exactly when the code is a success and the book is present.
pub fn book_info_from_detail(resp: BookDetailResponse, book_id: &str) -> (r: Result<
    BookInfo,
    FanqieError,
>)
    ensures
        r is Ok <==> resp.code == 200 && spec_detail_book(resp) is Some,
        resp.code == 200 ==> (spec_detail_book(resp) matches Some(b) ==> r == Ok::<
            BookInfo,
            FanqieError,
        >(b)),
        r matches Err(e) ==> (e matches FanqieError::BookNotFound(s) && s@ == book_id@),
{
    if resp.code != 200 {
        return Err(FanqieError::BookNotFound(book_id.to_owned()));
    }
    match resp.data {
        Some(d) => match d.data {
            Some(b) => Ok(b),
            None => Err(FanqieError::BookNotFound(book_id.to_owned())),
        },
        None => Err(FanqieError::BookNotFound(book_id.to_owned())),
    }
}

// ---------------------------------------------------------------------------
// Display formatting
// ---------------------------------------------------------------------------

/// One table row of a search listing: id, title and author in padded
/// columns (title and author shortened first), then the status.
pub open spec fn spec_search_row(b: BookInfo) -> Seq<char> {
    spec_pad_right(b.book_id@, 15) + " "@ + spec_pad_right(spec_truncated(b.book_name@, 22), 25)
        + " "@ + spec_pad_right(spec_truncated(b.author@, 12), 15) + " "@ + spec_pad_right(
        spec_status(b),
        8,
    ) + "\n"@
}

/// The rows of a search listing, in order.
pub open spec fn spec_search_rows(books: Seq<BookInfo>) -> Seq<char>
    decreases books.len(),
{
    if books.len() == 0 {
        Seq::empty()
    } else {
        spec_search_rows(books.drop_last()) + spec_search_row(books.last())
    }
}

/// The full search listing: a count line, a padded header, a rule, and
/// one row per book — or a fixed notice when nothing was found.
pub open spec fn spec_search_listing(books: Seq<BookInfo>) -> Seq<char> {
    if books.len() == 0 {
        "未找到相关书籍"@
    } else {
        "\n找到 "@ + spec_udigits(books.len()) + " 本书籍:\n\n"@ + spec_pad_right("书籍ID"@, 15)
            + " "@ + spec_pad_right("书名"@, 25) + " "@ + spec_pad_right("作者"@, 15) + " "@
            + spec_pad_right("状态"@, 8) + "\n"@ + spec_repeat("-"@, 65) + "\n"@
            + spec_search_rows(books)
    }
}

/// Renders one row of the search listing.
fn format_search_row(b: &BookInfo) -> (r: String)
    ensures
        r@ == spec_search_row(*b),
{
    let name = truncate_string(b.book_name.as_str(), 22);
    let author = truncate_string(b.author.as_str(), 12);
    let mut row = pad_right(b.book_id.as_str(), 15);
    row.append(" ");
    row.append(pad_right(name.as_str(), 25).as_str());
    row.append(" ");
    row.append(pad_right(author.as_str(), 15).as_str());
    row.append(" ");
    row.append(pad_right(b.get_status(), 8).as_str());
    row.append("\n");
    row
}

/// Renders the search listing as a table, or as a fixed notice when no
/// book was found.
pub fn format_search_results(books: &Vec<BookInfo>) -> (r: String)
    ensures
        r@ == spec_search_listing(books@),
{
    if books.len() == 0 {
        return "未找到相关书籍".to_owned();
    }
    let mut out = "\n找到 ".to_owned();
    out.append(u64_to_string(books.len() as u64).as_str());
    out.append(" 本书籍:\n\n");
    out.append(pad_right("书籍ID", 15).as_str());
    out.append(" ");
    out.append(pad_right("书名", 25).as_str());
    out.append(" ");
    out.append(pad_right("作者", 15).as_str());
    out.append(" ");
    out.append(pad_right("状态", 8).as_str());
    out.append("\n");
    out.append(repeat_str("-", 65).as_str());
    out.append("\n");
    let ghost header = out@;
    let mut i: usize = 0;
    proof {
        assert(books@.subrange(0, 0) =~= Seq::<BookInfo>::empty());
        assert(out@ + spec_search_rows(books@.subrange(0, 0)) =~= out@);
    }
    #[verifier::loop_isolation(false)]
    while i < books.len()
        invariant
            i <= books@.len(),
            out@ == header + spec_search_rows(books@.subrange(0, i as int)),
        decreases books@.len() - i,
    {
        out.append(format_search_row(&books[i]).as_str());
        proof {
            let longer = books@.subrange(0, i as int + 1);
            assert(longer.drop_last() =~= books@.subrange(0, i as int));
            assert(longer.last() == books@[i as int]);
            assert(header + spec_search_rows(books@.subrange(0, i as int)) + spec_search_row(
                books@[i as int],
            ) =~= header + (spec_search_rows(books@.subrange(0, i as int)) + spec_search_row(
                books@[i as int],
            )));
        }
        i = i + 1;
    }
    proof {
        assert(books@.subrange(0, books@.len() as int) =~= books@);
    }
    out
}

/// The book card: framed rules, the name and author lines, the chapter
/// count when known, and the shortened abstract when there is one.
pub open spec fn spec_book_card(b: BookInfo, chapter_count: Option<usize>) -> Seq<char> {
    spec_repeat("="@, 50) + "\n"@ + "书名: "@ + b.book_name@ + "\n"@ + "作者: "@ + b.author@
        + "\n"@ + (match chapter_count {
        Some(n) => "章节数: "@ + spec_udigits(n as nat) + "\n"@,
        None => Seq::empty(),
    }) + spec_repeat("-"@, 50) + "\n"@ + (if spec_abstract(b).len() > 0 {
        "简介:\n"@ + spec_truncated(spec_abstract(b), 200) + "\n"@
    } else {
        Seq::empty()
    }) + spec_repeat("="@, 50) + "\n"@
}

/// Renders the book card shown by the info command.
pub fn format_book_info(book: &BookInfo, chapter_count: Option<usize>) -> (r: String)
    ensures
        r@ == spec_book_card(*book, chapter_count),
{
    let mut out = repeat_str("=", 50);
    out.append("\n");
    out.append("书名: ");
    out.append(book.book_name.as_str());
    out.append("\n");
    out.append("作者: ");
    out.append(book.author.as_str());
    out.append("\n");
    match chapter_count {
        Some(n) => {
            out.append("章节数: ");
            out.append(u64_to_string(n as u64).as_str());
            out.append("\n");
        },
        None => {},
    }
    out.append(repeat_str("-", 50).as_str());
    out.append("\n");
    let abstract_text = book.get_abstract();
    if !abstract_text.is_empty() {
        out.append("简介:\n");
        out.append(truncate_string(abstract_text, 200).as_str());
        out.append("\n");
    }
    out.append(repeat_str("=", 50).as_str());
    out.append("\n");
    out
}

} // verus!
