use vstd::prelude::*;
use vstd::string::StrSliceExecFns;
use vstd::string::StringExecFns;

use crate::api::{BookInfo, ChapterContent};
use crate::strutil::{
    spec_repeat, spec_trimmed, push_char, repeat_str, trim_spaces,
};

verus! {

// ---------------------------------------------------------------------------
// File names
// ---------------------------------------------------------------------------

/// A character as it may appear in a file name: the characters that file
/// systems reserve become underscores, everything else passes through.
pub open spec fn spec_sanitize_char(c: char) -> char {
    if c == '<' || c == '>' || c == ':' || c == '"' || c == '/' || c == '\\' || c == '|' || c
        == '?' || c == '*' {
        '_'
    } else {
        c
    }
}

/// `s` with every reserved file-name character replaced.
pub open spec fn spec_replaced(s: Seq<char>) -> Seq<char>
    decreases s.len(),
{
    if s.len() == 0 {
        Seq::empty()
    } else {
        spec_replaced(s.drop_last()).push(spec_sanitize_char(s.last()))
    }
}

fn sanitize_char(c: char) -> (r: char)
    ensures
        r == spec_sanitize_char(c),
{
    if c == '<' || c == '>' || c == ':' || c == '"' || c == '/' || c == '\\' || c == '|' || c
        == '?' || c == '*' {
        '_'
    } else {
        c
    }
}

/// Makes a book name safe as a file name: reserved characters become
/// underscores and surrounding whitespace is dropped.
pub fn sanitize_filename(name: &str) -> (r: String)
    ensures
        r@ == spec_trimmed(spec_replaced(name@)),
{
    let n = name.unicode_len();
    let mut replaced = String::new();
    let mut i: usize = 0;
    proof {
        assert(name@.subrange(0, 0) =~= Seq::<char>::empty());
    }
    #[verifier::loop_isolation(false)]
    while i < n
        invariant
            i <= n,
            n == name@.len(),
            replaced@ == spec_replaced(name@.subrange(0, i as int)),
        decreases n - i,
    {
        push_char(&mut replaced, sanitize_char(name.get_char(i)));
        proof {
            let longer = name@.subrange(0, i as int + 1);
            assert(longer.drop_last() =~= name@.subrange(0, i as int));
            assert(longer.last() == name@[i as int]);
        }
        i = i + 1;
    }
    proof {
        assert(name@.subrange(0, name@.len() as int) =~= name@);
    }
    trim_spaces(replaced.as_str())
}

// ---------------------------------------------------------------------------
// Chapter markup
// ---------------------------------------------------------------------------

/// A character as HTML text: an ampersand and the angle brackets become
/// their named entities, everything else passes through.
pub open spec fn spec_escape_char(c: char) -> Seq<char> {
    if c == '&' {
        "&amp;"@
    } else if c == '<' {
        "&lt;"@
    } else if c == '>' {
        "&gt;"@
    } else {
        seq![c]
    }
}

/// `s` escaped as HTML text, character by character.
pub open spec fn spec_escaped(s: Seq<char>) -> Seq<char>
    decreases s.len(),
{
    if s.len() == 0 {
        Seq::empty()
    } else {
        spec_escaped(s.drop_last()) + spec_escape_char(s.last())
    }
}

/// Relies on `html_escape::encode_text`: every `&`, `<` and `>` becomes
/// its named entity and every other character passes through.
#[verifier::external_body]
fn escape_html_text(s: &str) -> (r: String)
    ensures
        r@ == spec_escaped(s@),
{
    html_escape::encode_text(s).into_owned()
}

/// Where the first line break sits in `s`, or the length when there is
/// none.
pub open spec fn spec_first_newline(s: Seq<char>) -> nat
    decreases s.len(),
{
    if s.len() == 0 {
        0
    } else if s[0] == '\n' {
        0
    } else {
        1 + spec_first_newline(s.drop_first())
    }
}

proof fn lemma_first_newline_at(s: Seq<char>, i: int)
    requires
        0 <= i <= s.len(),
        forall|j: int| 0 <= j < i ==> #[trigger] s[j] != '\n',
        i < s.len() ==> s[i] == '\n',
    ensures
        spec_first_newline(s) == i,
    decreases i,
{
    if i > 0 {
        let rest = s.drop_first();
        assert forall|j: int| 0 <= j < i - 1 implies #[trigger] rest[j] != '\n' by {
            assert(rest[j] == s[j + 1]);
        }
        lemma_first_newline_at(rest, i - 1);
    }
}

/// The lines of `s`, each trimmed and wrapped as one HTML paragraph, the
/// paragraphs joined by line breaks.
pub open spec fn spec_paragraphs(s: Seq<char>) -> Seq<char>
    decreases s.len(),
{
    let i = spec_first_newline(s);
    let head = "<p>"@ + spec_trimmed(s.subrange(0, i as int)) + "</p>"@;
    if i < s.len() {
        head + "\n"@ + spec_paragraphs(s.subrange(i as int + 1, s.len() as int))
    } else {
        head
    }
}

/// Wraps each line of already-escaped text as a paragraph.
fn paragraphs_html(escaped: &str) -> (r: String)
    ensures
        r@ == spec_paragraphs(escaped@),
    decreases escaped@.len(),
{
    let n = escaped.unicode_len();
    let mut idx: usize = 0;
    #[verifier::loop_isolation(false)]
    while idx < n && escaped.get_char(idx) != '\n'
        invariant
            idx <= n,
            n == escaped@.len(),
            forall|j: int| 0 <= j < idx ==> #[trigger] escaped@[j] != '\n',
        decreases n - idx,
    {
        idx = idx + 1;
    }
    proof {
        lemma_first_newline_at(escaped@, idx as int);
    }
    let head = escaped.substring_char(0, idx);
    let mut out = "<p>".to_owned();
    out.append(trim_spaces(head).as_str());
    out.append("</p>");
    if idx < n {
        out.append("\n");
        let tail = escaped.substring_char(idx + 1, n);
        out.append(paragraphs_html(tail).as_str());
    }
    out
}

/// The XHTML document for one chapter: the fixed preamble, the escaped
/// title in the head and as the heading, and the escaped body as trimmed
/// paragraphs.
pub open spec fn spec_chapter_html(title: Seq<char>, content: Seq<char>) -> Seq<char> {
    "<?xml version=\"1.0\" encoding=\"utf-8\"?>\n<!DOCTYPE html>\n<html xmlns=\"http://www.w3.org/1999/xhtml\">\n<head>\n    <title>"@
        + spec_escaped(title) + "</title>\n</head>\n<body>\n    <h1>"@ + spec_escaped(title)
        + "</h1>\n    "@ + spec_paragraphs(spec_escaped(content)) + "\n</body>\n</html>"@
}

/// Renders one chapter as the XHTML document an e-book holds.
pub fn chapter_to_html(title: &str, content: &str) -> (r: String)
    ensures
        r@ == spec_chapter_html(title@, content@),
{
    let escaped_title = escape_html_text(title);
    let escaped_content = escape_html_text(content);
    let mut out =
        "<?xml version=\"1.0\" encoding=\"utf-8\"?>\n<!DOCTYPE html>\n<html xmlns=\"http://www.w3.org/1999/xhtml\">\n<head>\n    <title>".to_owned();
    out.append(escaped_title.as_str());
    out.append("</title>\n</head>\n<body>\n    <h1>");
    out.append(escaped_title.as_str());
    out.append("</h1>\n    ");
    out.append(paragraphs_html(escaped_content.as_str()).as_str());
    out.append("\n</body>\n</html>");
    out
}

// ---------------------------------------------------------------------------
// Plain-text document
// ---------------------------------------------------------------------------

/// The chapters of the plain-text document, each as a framed title line
/// followed by the body.
pub open spec fn spec_txt_chapters(chapters: Seq<ChapterContent>) -> Seq<char>
    decreases chapters.len(),
{
    if chapters.len() == 0 {
        Seq::empty()
    } else {
        spec_txt_chapters(chapters.drop_last()) + "\n"@ + chapters.last().title@ + "\n\n"@
            + chapters.last().content@ + "\n\n"@
    }
}

/// The whole plain-text document: the name and author lines, a rule, and
/// the chapters in order.
pub open spec fn spec_txt_document(book: BookInfo, chapters: Seq<ChapterContent>) -> Seq<char> {
    "书名: "@ + book.book_name@ + "\n"@ + "作者: "@ + book.author@ + "\n"@ + "\n"@ + spec_repeat(
        "="@,
        50,
    ) + "\n\n"@ + spec_txt_chapters(chapters)
}

/// Renders the plain-text document for one book; writing it anywhere is
/// the caller's business.
pub fn render_txt(book: &BookInfo, chapters: &Vec<ChapterContent>) -> (r: String)
    ensures
        r@ == spec_txt_document(*book, chapters@),
{
    let mut out = "书名: ".to_owned();
    out.append(book.book_name.as_str());
    out.append("\n");
    out.append("作者: ");
    out.append(book.author.as_str());
    out.append("\n");
    out.append("\n");
    out.append(repeat_str("=", 50).as_str());
    out.append("\n\n");
    let ghost header = out@;
    let mut i: usize = 0;
    proof {
        assert(chapters@.subrange(0, 0) =~= Seq::<ChapterContent>::empty());
        assert(out@ + spec_txt_chapters(chapters@.subrange(0, 0)) =~= out@);
    }
    #[verifier::loop_isolation(false)]
    while i < chapters.len()
        invariant
            i <= chapters@.len(),
            out@ == header + spec_txt_chapters(chapters@.subrange(0, i as int)),
        decreases chapters@.len() - i,
    {
        out.append("\n");
        out.append(chapters[i].title.as_str());
        out.append("\n\n");
        out.append(chapters[i].content.as_str());
        out.append("\n\n");
        proof {
            let longer = chapters@.subrange(0, i as int + 1);
            assert(longer.drop_last() =~= chapters@.subrange(0, i as int));
            assert(longer.last() == chapters@[i as int]);
        }
        i = i + 1;
    }
    proof {
        assert(chapters@.subrange(0, chapters@.len() as int) =~= chapters@);
    }
    out
}

} // verus!
