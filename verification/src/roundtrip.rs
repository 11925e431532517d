//! Reading back what was written: the grammar of [`crate::grammar`] accepts
//! every text that [`crate::json`] writes and gives the written value back.
//!
//! Each lemma lets any text follow the written item, so that the lemma of an
//! item can be used wherever the item stands inside a larger one.

use crate::grammar::{
    digit_value, hex_value, parse_array, parse_book, parse_books, parse_chapter, parse_chapters,
    parse_char, parse_digits, parse_document, parse_more_items, parse_number, parse_section,
    parse_sections, parse_string, parse_string_body, parse_testament, starts_with,
};
use crate::json::{
    book_json, catalog_json, chapter_json, chapters_json, escape_char, escaped, hex_digit_char,
    json_array, json_string, next_item, section_json, sections_json, testament_json,
    BOOK_CHAPTERS_KEY, BOOK_NAME_KEY, BOOK_TESTAMENT_KEY, CHAPTER_NUMBER_KEY,
    CHAPTER_SECTIONS_KEY, NEW_TESTAMENT_VALUE, SECTION_HEADING_KEY,
};
use crate::model::{BookView, ChapterView, SectionHeadingView, Testament};
use crate::text::{concat_map, decimal, digit_char, lemma_concat_map_empty, lemma_concat_map_first};
use vstd::prelude::*;

verus! {

/// A text that begins with a prefix starts with it.
pub proof fn lemma_starts_with_own_prefix(prefix: Seq<char>, rest: Seq<char>)
    ensures
        starts_with(prefix + rest, prefix),
        (prefix + rest).skip(prefix.len() as int) == rest,
{
    assert((prefix + rest).subrange(0, prefix.len() as int) =~= prefix);
    assert((prefix + rest).skip(prefix.len() as int) =~= rest);
}

/// An escaped character never begins with a quote and is never empty.
pub proof fn lemma_escape_char_shape(c: char)
    ensures
        1 <= escape_char(c).len() <= 6,
        escape_char(c)[0] != '"',
{
}

/// An escaped character is read back as the character.
pub proof fn lemma_parse_char_round_trip(c: char, rest: Seq<char>)
    ensures
        parse_char(escape_char(c) + rest) == Some((c, escape_char(c).len() as int)),
{
    let s = escape_char(c) + rest;
    if escape_char(c).len() == 6 {
        let high = (c as u32 / 16) as nat;
        let low = (c as u32 % 16) as nat;
        assert(s[1] == 'u' && s[2] == '0' && s[3] == '0');
        assert(s[4] == hex_digit_char(high));
        assert(s[5] == hex_digit_char(low));
        assert(hex_value(s[4]) == Some(high));
        assert(hex_value(s[5]) == Some(low));
        assert(((high * 16 + low) as u8) as char == c);
    } else if escape_char(c).len() == 2 {
        assert(s[0] == '\\');
        assert(s[1] == escape_char(c)[1]);
    } else {
        assert(s[0] == c);
    }
}

/// The escaped inside of a string and its closing quote are read back as
/// the text.
pub proof fn lemma_parse_string_body_round_trip(text: Seq<char>, rest: Seq<char>)
    ensures
        parse_string_body(escaped(text) + seq!['"'] + rest) == Some(
            (text, escaped(text).len() as int + 1),
        ),
    decreases text.len(),
{
    let escape = |c: char| escape_char(c);
    let s = escaped(text) + seq!['"'] + rest;
    if text.len() == 0 {
        lemma_concat_map_empty(escape);
        assert(text =~= Seq::empty());
        assert(s[0] == '"');
    } else {
        let c = text[0];
        let tail = text.drop_first();
        let after = escaped(tail) + seq!['"'] + rest;
        lemma_concat_map_first(text, escape);
        lemma_escape_char_shape(c);
        assert(s =~= escape_char(c) + after);
        assert(s[0] == escape_char(c)[0]);
        lemma_parse_char_round_trip(c, after);
        assert(s.skip(escape_char(c).len() as int) =~= after);
        lemma_parse_string_body_round_trip(tail, rest);
        assert(seq![c] + tail =~= text);
    }
}

/// A written string is read back as its text.
pub proof fn lemma_parse_string_round_trip(text: Seq<char>, rest: Seq<char>)
    ensures
        parse_string(json_string(text) + rest) == Some((text, json_string(text).len() as int)),
{
    let s = json_string(text) + rest;
    assert(s[0] == '"');
    assert(s.skip(1) =~= escaped(text) + seq!['"'] + rest);
    lemma_parse_string_body_round_trip(text, rest);
}

/// The number read so far, continued with the digits of `n`.
pub open spec fn continued(value: nat, n: nat) -> nat
    decreases n,
{
    if n < 10 {
        value * 10 + n
    } else {
        continued(value, n / 10) * 10 + n % 10
    }
}

/// Starting from nothing, the digits of a number give the number.
pub proof fn lemma_continued_from_zero(n: nat)
    ensures
        continued(0, n) == n,
    decreases n,
{
    if n >= 10 {
        lemma_continued_from_zero(n / 10);
    }
}

/// A written number has at least one digit, and begins with a zero only
/// where it is zero.
pub proof fn lemma_decimal_shape(n: nat)
    ensures
        decimal(n).len() >= 1,
        n >= 10 ==> decimal(n).len() >= 2,
        n >= 1 ==> decimal(n)[0] != '0',
    decreases n,
{
    if n >= 10 {
        lemma_decimal_shape(n / 10);
    }
}

/// Reading the digits of a written number continues the number read so far
/// with them, and goes on with what follows.
pub proof fn lemma_parse_digits_decimal(n: nat, rest: Seq<char>, value: nat)
    ensures
        parse_digits(decimal(n) + rest, value) == (
            parse_digits(rest, continued(value, n)).0,
            parse_digits(rest, continued(value, n)).1 + decimal(n).len() as int,
        ),
    decreases n,
{
    if n < 10 {
        let s = decimal(n) + rest;
        assert(s[0] == digit_char(n));
        assert(digit_value(s[0]) == Some(n));
        assert(s.skip(1) =~= rest);
    } else {
        let last = seq![digit_char(n % 10)];
        let after = last + rest;
        assert(decimal(n) + rest =~= decimal(n / 10) + after);
        lemma_parse_digits_decimal(n / 10, after, value);
        assert(after[0] == digit_char(n % 10));
        assert(digit_value(after[0]) == Some(n % 10));
        assert(after.skip(1) =~= rest);
    }
}

/// A written number is read back, provided that no digit follows it.
pub proof fn lemma_parse_number_round_trip(n: u32, rest: Seq<char>)
    requires
        rest.len() == 0 || digit_value(rest[0]) is None,
    ensures
        parse_number(decimal(n as nat) + rest) == Some((n, decimal(n as nat).len() as int)),
{
    lemma_parse_digits_decimal(n as nat, rest, 0);
    lemma_continued_from_zero(n as nat);
    lemma_decimal_shape(n as nat);
    assert((decimal(n as nat) + rest)[0] == decimal(n as nat)[0]);
}

/// The written value of a testament is read back.
pub proof fn lemma_parse_testament_round_trip(testament: Testament, rest: Seq<char>)
    ensures
        parse_testament(testament_json(testament) + rest) == Some(
            (testament, testament_json(testament).len() as int),
        ),
{
    reveal_strlit("\"Old\"");
    reveal_strlit("\"New\"");
    lemma_starts_with_own_prefix(testament_json(testament), rest);
    if testament == Testament::New {
        let s = NEW_TESTAMENT_VALUE@ + rest;
        assert(s[1] == 'N');
        assert(s.subrange(0, 5)[1] == 'N');
    }
}

/// The reader of an item gives back every written item, whatever follows it.
pub open spec fn reads_back<T>(
    print: spec_fn(T) -> Seq<char>,
    parse: spec_fn(Seq<char>) -> Option<(T, int)>,
) -> bool {
    forall|x: T, rest: Seq<char>| #[trigger]
        parse(print(x) + rest) == Some((x, print(x).len() as int))
}

/// No written item is empty or begins with a closing bracket.
pub open spec fn opens_visibly<T>(print: spec_fn(T) -> Seq<char>) -> bool {
    forall|x: T| (#[trigger] print(x)).len() > 0 && print(x)[0] != ']'
}

/// The items of an array after the first, and its closing bracket, are read
/// back.
pub proof fn lemma_parse_more_items_round_trip<T>(
    items: Seq<T>,
    print: spec_fn(T) -> Seq<char>,
    parse: spec_fn(Seq<char>) -> Option<(T, int)>,
    rest: Seq<char>,
)
    requires
        reads_back(print, parse),
    ensures
        parse_more_items(
            concat_map(items.map_values(print), |item: Seq<char>| next_item(item)) + seq![']']
                + rest,
            parse,
        ) == Some(
            (
                items,
                concat_map(items.map_values(print), |item: Seq<char>| next_item(item)).len() as int
                    + 1,
            ),
        ),
    decreases items.len(),
{
    reveal(parse_more_items);
    let next = |item: Seq<char>| next_item(item);
    let parts = items.map_values(print);
    let s = concat_map(parts, next) + seq![']'] + rest;
    if items.len() == 0 {
        lemma_concat_map_empty(next);
        assert(parts =~= Seq::empty());
        assert(items =~= Seq::empty());
        assert(s[0] == ']');
    } else {
        let x = items[0];
        let tail = items.drop_first();
        let after = concat_map(tail.map_values(print), next) + seq![']'] + rest;
        lemma_concat_map_first(parts, next);
        assert(parts.drop_first() =~= tail.map_values(print));
        assert(parts[0] == print(x));
        assert(s =~= seq![','] + (print(x) + after));
        assert(s[0] == ',');
        assert(s.skip(1) =~= print(x) + after);
        assert(parse(print(x) + after) == Some((x, print(x).len() as int)));
        assert(s.skip(1 + print(x).len() as int) =~= after);
        lemma_parse_more_items_round_trip(tail, print, parse, rest);
        assert(seq![x] + tail =~= items);
    }
}

/// A written array is read back.
pub proof fn lemma_parse_array_round_trip<T>(
    items: Seq<T>,
    print: spec_fn(T) -> Seq<char>,
    parse: spec_fn(Seq<char>) -> Option<(T, int)>,
    rest: Seq<char>,
)
    requires
        reads_back(print, parse),
        opens_visibly(print),
    ensures
        parse_array(json_array(items.map_values(print)) + rest, parse) == Some(
            (items, json_array(items.map_values(print)).len() as int),
        ),
{
    reveal(parse_array);
    let next = |item: Seq<char>| next_item(item);
    let parts = items.map_values(print);
    let s = json_array(parts) + rest;
    if items.len() == 0 {
        assert(items =~= Seq::empty());
        assert(s[0] == '[' && s[1] == ']');
    } else {
        let x = items[0];
        let tail = items.drop_first();
        let after = concat_map(tail.map_values(print), next) + seq![']'] + rest;
        assert(parts.drop_first() =~= tail.map_values(print));
        assert(parts[0] == print(x));
        assert(print(x).len() > 0 && print(x)[0] != ']');
        assert(s =~= seq!['['] + (print(x) + after));
        assert(s[0] == '[');
        assert(s[1] == print(x)[0]);
        assert(s.skip(1) =~= print(x) + after);
        assert(parse(print(x) + after) == Some((x, print(x).len() as int)));
        assert(s.skip(1 + print(x).len() as int) =~= after);
        lemma_parse_more_items_round_trip(tail, print, parse, rest);
        assert(seq![x] + tail =~= items);
    }
}

/// The written object of a section is read back.
pub proof fn lemma_parse_section_round_trip(section: SectionHeadingView, rest: Seq<char>)
    ensures
        parse_section(section_json(section) + rest) == Some(
            (section, section_json(section).len() as int),
        ),
{
    reveal(parse_section);
    let key = SECTION_HEADING_KEY@;
    let value = json_string(section.heading);
    let after = seq!['}'] + rest;
    let s = section_json(section) + rest;
    assert(s =~= key + (value + after));
    lemma_starts_with_own_prefix(key, value + after);
    lemma_parse_string_round_trip(section.heading, after);
    assert(s[(key.len() + value.len()) as int] == '}');
}

/// The written array of the sections of a chapter is read back.
pub proof fn lemma_parse_sections_round_trip(sections: Seq<SectionHeadingView>, rest: Seq<char>)
    ensures
        parse_sections(sections_json(sections) + rest) == Some(
            (sections, sections_json(sections).len() as int),
        ),
{
    let print = |s: SectionHeadingView| section_json(s);
    let parse = |t: Seq<char>| parse_section(t);
    assert forall|x: SectionHeadingView, r: Seq<char>| #[trigger]
        parse(print(x) + r) == Some((x, print(x).len() as int)) by {
        lemma_parse_section_round_trip(x, r);
    }
    assert forall|x: SectionHeadingView| (#[trigger] print(x)).len() > 0 && print(x)[0]
        != ']' by {
        reveal_strlit("{\"heading\":");
        assert(print(x)[0] == SECTION_HEADING_KEY@[0]);
    }
    lemma_parse_array_round_trip(sections, print, parse, rest);
}

/// The written object of a chapter is read back.
pub proof fn lemma_parse_chapter_round_trip(chapter: ChapterView, rest: Seq<char>)
    ensures
        parse_chapter(chapter_json(chapter) + rest) == Some(
            (chapter, chapter_json(chapter).len() as int),
        ),
{
    reveal(parse_chapter);
    let key = CHAPTER_NUMBER_KEY@;
    let number = decimal(chapter.chapter_number as nat);
    let sections_key = CHAPTER_SECTIONS_KEY@;
    let sections = sections_json(chapter.sections);
    let after = seq!['}'] + rest;
    let s = chapter_json(chapter) + rest;
    assert(s =~= key + (number + (sections_key + (sections + after))));
    lemma_starts_with_own_prefix(key, number + (sections_key + (sections + after)));
    reveal_strlit(",\"sections\":");
    assert((sections_key + (sections + after))[0] == ',');
    lemma_parse_number_round_trip(chapter.chapter_number, sections_key + (sections + after));
    lemma_starts_with_own_prefix(number, sections_key + (sections + after));
    assert(s.skip((key.len() + number.len()) as int) =~= sections_key + (sections + after));
    lemma_starts_with_own_prefix(sections_key, sections + after);
    assert(s.skip((key.len() + number.len() + sections_key.len()) as int) =~= sections + after);
    lemma_parse_sections_round_trip(chapter.sections, after);
    assert(s[(key.len() + number.len() + sections_key.len() + sections.len()) as int] == '}');
}

/// The written array of the chapters of a book is read back.
pub proof fn lemma_parse_chapters_round_trip(chapters: Seq<ChapterView>, rest: Seq<char>)
    ensures
        parse_chapters(chapters_json(chapters) + rest) == Some(
            (chapters, chapters_json(chapters).len() as int),
        ),
{
    let print = |c: ChapterView| chapter_json(c);
    let parse = |t: Seq<char>| parse_chapter(t);
    assert forall|x: ChapterView, r: Seq<char>| #[trigger]
        parse(print(x) + r) == Some((x, print(x).len() as int)) by {
        lemma_parse_chapter_round_trip(x, r);
    }
    assert forall|x: ChapterView| (#[trigger] print(x)).len() > 0 && print(x)[0] != ']' by {
        reveal_strlit("{\"chapter_number\":");
        assert(print(x)[0] == CHAPTER_NUMBER_KEY@[0]);
    }
    lemma_parse_array_round_trip(chapters, print, parse, rest);
}

/// Where a text continues, from some position on, with a prefix and a rest,
/// it starts with the prefix there and continues with the rest behind it.
pub proof fn lemma_skip_through(s: Seq<char>, at: int, prefix: Seq<char>, rest: Seq<char>)
    requires
        0 <= at <= s.len(),
        s.skip(at) == prefix + rest,
    ensures
        starts_with(s.skip(at), prefix),
        at + prefix.len() <= s.len(),
        s.skip(at + prefix.len()) == rest,
{
    lemma_starts_with_own_prefix(prefix, rest);
    assert(s.skip(at).len() == prefix.len() + rest.len());
    assert(s.skip(at).skip(prefix.len() as int) =~= s.skip(at + prefix.len()));
}

/// A text is read as a book where its parts are read one after the other:
/// the name, the testament and the chapters, each behind its key, and the
/// closing brace.
pub proof fn lemma_parse_book_from_parts(s: Seq<char>, book: BookView, n: int, t: int, m: int)
    requires
        0 <= n && 0 <= t && 0 <= m,
        BOOK_NAME_KEY@.len() + n + BOOK_TESTAMENT_KEY@.len() + t + BOOK_CHAPTERS_KEY@.len() + m
            < s.len(),
        starts_with(s, BOOK_NAME_KEY@),
        parse_string(s.skip(BOOK_NAME_KEY@.len() as int)) == Some((book.name, n)),
        starts_with(s.skip(BOOK_NAME_KEY@.len() + n), BOOK_TESTAMENT_KEY@),
        parse_testament(s.skip(BOOK_NAME_KEY@.len() + n + BOOK_TESTAMENT_KEY@.len())) == Some(
            (book.testament, t),
        ),
        starts_with(
            s.skip(BOOK_NAME_KEY@.len() + n + BOOK_TESTAMENT_KEY@.len() + t),
            BOOK_CHAPTERS_KEY@,
        ),
        parse_chapters(
            s.skip(
                BOOK_NAME_KEY@.len() + n + BOOK_TESTAMENT_KEY@.len() + t
                    + BOOK_CHAPTERS_KEY@.len(),
            ),
        ) == Some((book.chapters, m)),
        s[BOOK_NAME_KEY@.len() + n + BOOK_TESTAMENT_KEY@.len() + t + BOOK_CHAPTERS_KEY@.len()
            + m] == '}',
    ensures
        parse_book(s) == Some(
            (
                book,
                BOOK_NAME_KEY@.len() + n + BOOK_TESTAMENT_KEY@.len() + t
                    + BOOK_CHAPTERS_KEY@.len() + m + 1,
            ),
        ),
{
    reveal(parse_book);
}

/// The object of a book, followed by a rest, laid out from the front: each
/// part followed by everything behind it.
pub proof fn lemma_book_json_layout(book: BookView, rest: Seq<char>)
    ensures
        book_json(book) + rest == BOOK_NAME_KEY@ + (json_string(book.name) + (BOOK_TESTAMENT_KEY@
            + (testament_json(book.testament) + (BOOK_CHAPTERS_KEY@ + (chapters_json(
            book.chapters,
        ) + (seq!['}'] + rest)))))),
        book_json(book).len() == BOOK_NAME_KEY@.len() + json_string(book.name).len()
            + BOOK_TESTAMENT_KEY@.len() + testament_json(book.testament).len()
            + BOOK_CHAPTERS_KEY@.len() + chapters_json(book.chapters).len() + 1,
{
    reveal(book_json);
    assert(book_json(book) + rest =~= BOOK_NAME_KEY@ + (json_string(book.name) + (
    BOOK_TESTAMENT_KEY@ + (testament_json(book.testament) + (BOOK_CHAPTERS_KEY@ + (chapters_json(
        book.chapters,
    ) + (seq!['}'] + rest)))))));
}

/// Where a text is a key, a name, a key, a testament, a key, the chapters and
/// a rest, one after the other, each part stands at the sum of the lengths
/// of the parts in front of it.
pub proof fn lemma_book_positions(
    s: Seq<char>,
    key: Seq<char>,
    name: Seq<char>,
    testament_key: Seq<char>,
    testament: Seq<char>,
    chapters_key: Seq<char>,
    chapters: Seq<char>,
    after: Seq<char>,
)
    requires
        s == key + (name + (testament_key + (testament + (chapters_key + (chapters + after))))),
    ensures
        ({
            let k = key.len() as int;
            let n = name.len() as int;
            let l = testament_key.len() as int;
            let t = testament.len() as int;
            let c = chapters_key.len() as int;
            let m = chapters.len() as int;
            &&& s.len() == k + n + l + t + c + m + after.len()
            &&& starts_with(s, key)
            &&& s.skip(k) == name + (testament_key + (testament + (chapters_key + (chapters
                + after))))
            &&& starts_with(s.skip(k + n), testament_key)
            &&& s.skip(k + n + l) == testament + (chapters_key + (chapters + after))
            &&& starts_with(s.skip(k + n + l + t), chapters_key)
            &&& s.skip(k + n + l + t + c) == chapters + after
            &&& s.skip(k + n + l + t + c + m) == after
        }),
{
    let s5 = chapters + after;
    let s4 = chapters_key + s5;
    let s3 = testament + s4;
    let s2 = testament_key + s3;
    let s1 = name + s2;
    let k = key.len() as int;
    let n = name.len() as int;
    let l = testament_key.len() as int;
    let t = testament.len() as int;
    let c = chapters_key.len() as int;
    assert(s.skip(0) =~= s);
    lemma_skip_through(s, 0, key, s1);
    lemma_skip_through(s, k, name, s2);
    lemma_skip_through(s, k + n, testament_key, s3);
    lemma_skip_through(s, k + n + l, testament, s4);
    lemma_skip_through(s, k + n + l + t, chapters_key, s5);
    lemma_skip_through(s, k + n + l + t + c, chapters, after);
}

/// The written object of a book is read back.
pub proof fn lemma_parse_book_round_trip(book: BookView, rest: Seq<char>)
    ensures
        parse_book(book_json(book) + rest) == Some((book, book_json(book).len() as int)),
{
    let name = json_string(book.name);
    let testament = testament_json(book.testament);
    let chapters = chapters_json(book.chapters);
    let after = seq!['}'] + rest;
    let s = book_json(book) + rest;
    lemma_book_json_layout(book, rest);
    lemma_book_positions(
        s,
        BOOK_NAME_KEY@,
        name,
        BOOK_TESTAMENT_KEY@,
        testament,
        BOOK_CHAPTERS_KEY@,
        chapters,
        after,
    );
    lemma_parse_string_round_trip(
        book.name,
        BOOK_TESTAMENT_KEY@ + (testament + (BOOK_CHAPTERS_KEY@ + (chapters + after))),
    );
    lemma_parse_testament_round_trip(book.testament, BOOK_CHAPTERS_KEY@ + (chapters + after));
    lemma_parse_chapters_round_trip(book.chapters, after);
    let end = BOOK_NAME_KEY@.len() + name.len() + BOOK_TESTAMENT_KEY@.len() + testament.len()
        + BOOK_CHAPTERS_KEY@.len() + chapters.len();
    assert(s[end as int] == '}') by {
        assert(s[end as int] == s.skip(end as int)[0]);
        assert(after[0] == '}');
    }
    lemma_parse_book_from_parts(
        s,
        book,
        name.len() as int,
        testament.len() as int,
        chapters.len() as int,
    );
}

/// The written array of the books of a catalog is read back.
pub proof fn lemma_parse_books_round_trip(catalog: Seq<BookView>, rest: Seq<char>)
    ensures
        parse_books(catalog_json(catalog) + rest) == Some(
            (catalog, catalog_json(catalog).len() as int),
        ),
{
    let print = |b: BookView| book_json(b);
    let parse = |t: Seq<char>| parse_book(t);
    assert forall|x: BookView, r: Seq<char>| #[trigger]
        parse(print(x) + r) == Some((x, print(x).len() as int)) by {
        lemma_parse_book_round_trip(x, r);
    }
    assert forall|x: BookView| (#[trigger] print(x)).len() > 0 && print(x)[0] != ']' by {
        reveal(book_json);
        reveal_strlit("{\"name\":");
        assert(print(x)[0] == BOOK_NAME_KEY@[0]);
    }
    lemma_parse_array_round_trip(catalog, print, parse, rest);
}

/// Reading the document of a catalog gives the catalog back, field for field
/// and in the same order.
pub proof fn lemma_json_round_trip(catalog: Seq<BookView>)
    ensures
        parse_document(catalog_json(catalog)) == Some(catalog),
{
    lemma_parse_books_round_trip(catalog, Seq::empty());
    assert(catalog_json(catalog) + Seq::<char>::empty() =~= catalog_json(catalog));
}

/// The document determines the catalog: two catalogs with the same document
/// are equal.
pub proof fn lemma_json_injective(first: Seq<BookView>, second: Seq<BookView>)
    requires
        catalog_json(first) == catalog_json(second),
    ensures
        first == second,
{
    lemma_json_round_trip(first);
    lemma_json_round_trip(second);
}

} // verus!
