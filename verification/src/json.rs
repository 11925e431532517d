//! The JSON document.
//!
//! The catalog is written as an array of objects, compactly: no white space
//! between tokens, the members of each object in the order of the fields
//! (`name`, `testament`, `chapters`; `chapter_number`, `sections`;
//! `heading`), the items of each array in the order of the list. Nothing of
//! the catalog is left out, so the document determines the catalog.

use crate::model::{
    catalog_view, chapters_view, sections_view, Book, BookView, Chapter, ChapterView,
    SectionHeading, SectionHeadingView, Testament,
};
use crate::text::{
    concat_map, decimal, lemma_concat_map_empty, lemma_concat_map_step, push_char, push_decimal,
};
use vstd::prelude::*;
use vstd::string::*;

verus! {

/// Opens the object of a section, up to the value of its only member.
pub const SECTION_HEADING_KEY: &'static str = "{\"heading\":";

/// Opens the object of a chapter, up to the value of its first member.
pub const CHAPTER_NUMBER_KEY: &'static str = "{\"chapter_number\":";

/// Between the number of a chapter and the array of its sections.
pub const CHAPTER_SECTIONS_KEY: &'static str = ",\"sections\":";

/// Opens the object of a book, up to the value of its first member.
pub const BOOK_NAME_KEY: &'static str = "{\"name\":";

/// Between the name of a book and its testament.
pub const BOOK_TESTAMENT_KEY: &'static str = ",\"testament\":";

/// Between the testament of a book and the array of its chapters.
pub const BOOK_CHAPTERS_KEY: &'static str = ",\"chapters\":";

/// The value that stands for the Old Testament.
pub const OLD_TESTAMENT_VALUE: &'static str = "\"Old\"";

/// The value that stands for the New Testament.
pub const NEW_TESTAMENT_VALUE: &'static str = "\"New\"";

/// The character that stands for a hexadecimal digit, in lowercase.
pub open spec fn hex_digit_char(d: nat) -> char {
    if d == 0 {
        '0'
    } else if d == 1 {
        '1'
    } else if d == 2 {
        '2'
    } else if d == 3 {
        '3'
    } else if d == 4 {
        '4'
    } else if d == 5 {
        '5'
    } else if d == 6 {
        '6'
    } else if d == 7 {
        '7'
    } else if d == 8 {
        '8'
    } else if d == 9 {
        '9'
    } else if d == 10 {
        'a'
    } else if d == 11 {
        'b'
    } else if d == 12 {
        'c'
    } else if d == 13 {
        'd'
    } else if d == 14 {
        'e'
    } else {
        'f'
    }
}

/// How one character of a text is written inside a JSON string. The quote
/// and the backslash get a backslash in front. A control character below
/// U+0020 gets its short escape where JSON has one, and `\u00` with two
/// hexadecimal digits where it has none. Every other character stands for
/// itself.
pub open spec fn escape_char(c: char) -> Seq<char> {
    if c == '"' {
        seq!['\\', '"']
    } else if c == '\\' {
        seq!['\\', '\\']
    } else if c == '\u{08}' {
        seq!['\\', 'b']
    } else if c == '\u{0c}' {
        seq!['\\', 'f']
    } else if c == '\n' {
        seq!['\\', 'n']
    } else if c == '\r' {
        seq!['\\', 'r']
    } else if c == '\t' {
        seq!['\\', 't']
    } else if (c as u32) < 0x20 {
        seq![
            '\\',
            'u',
            '0',
            '0',
            hex_digit_char((c as u32 / 16) as nat),
            hex_digit_char((c as u32 % 16) as nat),
        ]
    } else {
        seq![c]
    }
}

/// A text with each of its characters escaped.
pub open spec fn escaped(text: Seq<char>) -> Seq<char> {
    concat_map(text, |c: char| escape_char(c))
}

/// A text as a JSON string: escaped, between quotes.
pub open spec fn json_string(text: Seq<char>) -> Seq<char> {
    seq!['"'] + escaped(text) + seq!['"']
}

/// An item that is not the first of its array: a comma, then the item.
pub open spec fn next_item(item: Seq<char>) -> Seq<char> {
    seq![','] + item
}

/// A JSON array of items already written, separated by commas.
pub open spec fn json_array(items: Seq<Seq<char>>) -> Seq<char> {
    if items.len() == 0 {
        seq!['[', ']']
    } else {
        seq!['['] + items[0] + concat_map(items.drop_first(), |item: Seq<char>| next_item(item))
            + seq![']']
    }
}

/// The value that stands for a testament.
pub open spec fn testament_json(testament: Testament) -> Seq<char> {
    match testament {
        Testament::Old => OLD_TESTAMENT_VALUE@,
        Testament::New => NEW_TESTAMENT_VALUE@,
    }
}

/// The object of a section.
pub open spec fn section_json(section: SectionHeadingView) -> Seq<char> {
    SECTION_HEADING_KEY@ + json_string(section.heading) + seq!['}']
}

/// The array of the sections of a chapter.
pub open spec fn sections_json(sections: Seq<SectionHeadingView>) -> Seq<char> {
    json_array(sections.map_values(|s: SectionHeadingView| section_json(s)))
}

/// The object of a chapter.
pub open spec fn chapter_json(chapter: ChapterView) -> Seq<char> {
    CHAPTER_NUMBER_KEY@ + decimal(chapter.chapter_number as nat) + CHAPTER_SECTIONS_KEY@
        + sections_json(chapter.sections) + seq!['}']
}

/// The array of the chapters of a book.
pub open spec fn chapters_json(chapters: Seq<ChapterView>) -> Seq<char> {
    json_array(chapters.map_values(|c: ChapterView| chapter_json(c)))
}

/// The object of a book.
#[verifier::opaque]
pub open spec fn book_json(book: BookView) -> Seq<char> {
    BOOK_NAME_KEY@ + json_string(book.name) + BOOK_TESTAMENT_KEY@ + testament_json(book.testament)
        + BOOK_CHAPTERS_KEY@ + chapters_json(book.chapters) + seq!['}']
}

/// The document of a catalog: the array of its books.
pub open spec fn catalog_json(catalog: Seq<BookView>) -> Seq<char> {
    json_array(catalog.map_values(|b: BookView| book_json(b)))
}

/// What an array holds after its opening bracket once the first `n` of its
/// items are written.
pub open spec fn array_progress(items: Seq<Seq<char>>, n: int) -> Seq<char> {
    if n == 0 {
        Seq::empty()
    } else {
        items[0] + concat_map(
            items.drop_first().take(n - 1),
            |item: Seq<char>| next_item(item),
        )
    }
}

/// Writing one more item of an array: a comma unless the item is the first,
/// then the item.
pub proof fn lemma_array_progress_step(items: Seq<Seq<char>>, n: int)
    requires
        0 <= n < items.len(),
    ensures
        array_progress(items, n + 1) == array_progress(items, n) + if n == 0 {
            items[0]
        } else {
            next_item(items[n])
        },
{
    let next = |item: Seq<char>| next_item(item);
    if n == 0 {
        lemma_concat_map_empty(next);
        assert(items.drop_first().take(0) =~= Seq::empty());
        assert(array_progress(items, 1) =~= items[0]);
    } else {
        lemma_concat_map_step(items.drop_first(), n - 1, next);
        assert(array_progress(items, n + 1) =~= array_progress(items, n) + next_item(items[n]));
    }
}

/// An array is its opening bracket, all of its items written, and its
/// closing bracket.
pub proof fn lemma_array_complete(items: Seq<Seq<char>>)
    ensures
        json_array(items) == seq!['['] + array_progress(items, items.len() as int) + seq![']'],
{
    if items.len() == 0 {
        assert(json_array(items) =~= seq!['['] + array_progress(items, 0) + seq![']']);
    } else {
        assert(items.drop_first().take(items.len() - 1) =~= items.drop_first());
        assert(json_array(items) =~= seq!['['] + array_progress(items, items.len() as int)
            + seq![']']);
    }
}

/// The character of one hexadecimal digit, in lowercase.
pub fn hex_digit(d: u32) -> (c: char)
    requires
        d < 16,
    ensures
        c == hex_digit_char(d as nat),
{
    match d {
        0 => '0',
        1 => '1',
        2 => '2',
        3 => '3',
        4 => '4',
        5 => '5',
        6 => '6',
        7 => '7',
        8 => '8',
        9 => '9',
        10 => 'a',
        11 => 'b',
        12 => 'c',
        13 => 'd',
        14 => 'e',
        _ => 'f',
    }
}

/// Appends one character of a text as it is written inside a JSON string.
pub fn push_escaped_char(out: &mut String, c: char)
    ensures
        final(out)@ == old(out)@ + escape_char(c),
{
    let code: u32 = c as u32;
    if c == '"' || c == '\\' {
        push_char(out, '\\');
        push_char(out, c);
    } else if c == '\u{08}' {
        push_char(out, '\\');
        push_char(out, 'b');
    } else if c == '\u{0c}' {
        push_char(out, '\\');
        push_char(out, 'f');
    } else if c == '\n' {
        push_char(out, '\\');
        push_char(out, 'n');
    } else if c == '\r' {
        push_char(out, '\\');
        push_char(out, 'r');
    } else if c == '\t' {
        push_char(out, '\\');
        push_char(out, 't');
    } else if code < 0x20 {
        push_char(out, '\\');
        push_char(out, 'u');
        push_char(out, '0');
        push_char(out, '0');
        push_char(out, hex_digit(code / 16));
        push_char(out, hex_digit(code % 16));
    } else {
        push_char(out, c);
    }
    assert(final(out)@ =~= old(out)@ + escape_char(c));
}

/// Appends a text as a JSON string.
pub fn push_json_string(out: &mut String, text: &str)
    ensures
        final(out)@ == old(out)@ + json_string(text@),
{
    let ghost escape = |c: char| escape_char(c);
    push_char(out, '"');
    let ghost before = out@;
    proof {
        lemma_concat_map_empty(escape);
        assert(text@.take(0) =~= Seq::empty());
        assert(out@ =~= before + concat_map(text@.take(0), escape));
    }
    for c in it: text.chars()
        invariant
            it.seq() == text@,
            escape == |c: char| escape_char(c),
            out@ == before + concat_map(text@.take(it.index() as int), escape),
    {
        push_escaped_char(out, c);
        proof {
            lemma_concat_map_step(text@, it.index() as int, escape);
            assert(out@ =~= before + concat_map(text@.take(it.index() + 1), escape));
        }
    }
    push_char(out, '"');
    proof {
        assert(text@.take(text@.len() as int) =~= text@);
        assert(final(out)@ =~= old(out)@ + json_string(text@));
    }
}

/// The value that stands for a testament.
pub fn testament_value(testament: Testament) -> (value: &'static str)
    ensures
        value@ == testament_json(testament),
{
    match testament {
        Testament::Old => OLD_TESTAMENT_VALUE,
        Testament::New => NEW_TESTAMENT_VALUE,
    }
}

/// Appends the object of a section.
pub fn push_section_json(out: &mut String, section: &SectionHeading)
    ensures
        final(out)@ == old(out)@ + section_json(section@),
{
    out.append(SECTION_HEADING_KEY);
    push_json_string(out, section.heading.as_str());
    push_char(out, '}');
    assert(final(out)@ =~= old(out)@ + section_json(section@));
}

/// Appends the array of the sections of a chapter.
pub fn push_sections_json(out: &mut String, sections: &Vec<SectionHeading>)
    ensures
        final(out)@ == old(out)@ + sections_json(sections_view(sections@)),
{
    let ghost items = sections_view(sections@).map_values(|s: SectionHeadingView| section_json(s));
    push_char(out, '[');
    let ghost before = out@;
    let mut i: usize = 0;
    assert(out@ =~= before + array_progress(items, 0));
    while i < sections.len()
        invariant
            i <= sections@.len(),
            items == sections_view(sections@).map_values(|s: SectionHeadingView| section_json(s)),
            out@ == before + array_progress(items, i as int),
        decreases sections@.len() - i,
    {
        if i > 0 {
            push_char(out, ',');
        }
        push_section_json(out, &sections[i]);
        proof {
            lemma_array_progress_step(items, i as int);
            assert(out@ =~= before + array_progress(items, i + 1));
        }
        i = i + 1;
    }
    push_char(out, ']');
    proof {
        lemma_array_complete(items);
        assert(final(out)@ =~= old(out)@ + sections_json(sections_view(sections@)));
    }
}

/// Appends the object of a chapter.
pub fn push_chapter_json(out: &mut String, chapter: &Chapter)
    ensures
        final(out)@ == old(out)@ + chapter_json(chapter@),
{
    out.append(CHAPTER_NUMBER_KEY);
    push_decimal(out, chapter.chapter_number);
    out.append(CHAPTER_SECTIONS_KEY);
    push_sections_json(out, &chapter.sections);
    push_char(out, '}');
    assert(final(out)@ =~= old(out)@ + chapter_json(chapter@));
}

/// Appends the array of the chapters of a book.
pub fn push_chapters_json(out: &mut String, chapters: &Vec<Chapter>)
    ensures
        final(out)@ == old(out)@ + chapters_json(chapters_view(chapters@)),
{
    let ghost items = chapters_view(chapters@).map_values(|c: ChapterView| chapter_json(c));
    push_char(out, '[');
    let ghost before = out@;
    let mut i: usize = 0;
    assert(out@ =~= before + array_progress(items, 0));
    while i < chapters.len()
        invariant
            i <= chapters@.len(),
            items == chapters_view(chapters@).map_values(|c: ChapterView| chapter_json(c)),
            out@ == before + array_progress(items, i as int),
        decreases chapters@.len() - i,
    {
        if i > 0 {
            push_char(out, ',');
        }
        push_chapter_json(out, &chapters[i]);
        proof {
            lemma_array_progress_step(items, i as int);
            assert(out@ =~= before + array_progress(items, i + 1));
        }
        i = i + 1;
    }
    push_char(out, ']');
    proof {
        lemma_array_complete(items);
        assert(final(out)@ =~= old(out)@ + chapters_json(chapters_view(chapters@)));
    }
}

/// Appends the object of a book.
pub fn push_book_json(out: &mut String, book: &Book)
    ensures
        final(out)@ == old(out)@ + book_json(book@),
{
    out.append(BOOK_NAME_KEY);
    push_json_string(out, book.name.as_str());
    out.append(BOOK_TESTAMENT_KEY);
    out.append(testament_value(book.testament));
    out.append(BOOK_CHAPTERS_KEY);
    push_chapters_json(out, &book.chapters);
    push_char(out, '}');
    reveal(book_json);
    assert(final(out)@ =~= old(out)@ + book_json(book@));
}

/// Appends the array of the books of a catalog.
pub fn push_catalog_json(out: &mut String, books: &[Book])
    ensures
        final(out)@ == old(out)@ + catalog_json(catalog_view(books@)),
{
    let ghost items = catalog_view(books@).map_values(|b: BookView| book_json(b));
    push_char(out, '[');
    let ghost before = out@;
    let mut i: usize = 0;
    assert(out@ =~= before + array_progress(items, 0));
    while i < books.len()
        invariant
            i <= books@.len(),
            items == catalog_view(books@).map_values(|b: BookView| book_json(b)),
            out@ == before + array_progress(items, i as int),
        decreases books@.len() - i,
    {
        if i > 0 {
            push_char(out, ',');
        }
        push_book_json(out, &books[i]);
        proof {
            assert(items[i as int] == book_json(books@[i as int]@));
            lemma_array_progress_step(items, i as int);
            assert(out@ =~= before + array_progress(items, i + 1));
        }
        i = i + 1;
    }
    push_char(out, ']');
    proof {
        lemma_array_complete(items);
        assert(final(out)@ =~= old(out)@ + catalog_json(catalog_view(books@)));
    }
}

/// Writes the JSON document of a catalog.
pub fn to_json(books: &[Book]) -> (text: String)
    ensures
        text@ == catalog_json(catalog_view(books@)),
{
    let mut text = String::new();
    push_catalog_json(&mut text, books);
    text
}

} // verus!
