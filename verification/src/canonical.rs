//! Reading only what was written: wherever the grammar of
//! [`crate::grammar`] reads an item, the characters it took are exactly the
//! text that [`crate::json`] writes for that item. The grammar therefore
//! accepts no other spelling of a catalog than the written one.

use crate::grammar::{
    digit_value, hex_value, parse_array, parse_book, parse_books, parse_chapter, parse_chapters,
    parse_char, parse_digits, parse_document, parse_more_items, parse_number, parse_section,
    parse_sections, parse_string, parse_string_body, parse_testament, starts_with,
};
use crate::json::{
    book_json, catalog_json, chapter_json, chapters_json, escape_char, escaped, hex_digit_char,
    json_array, json_string, next_item, section_json, sections_json, testament_json,
    BOOK_CHAPTERS_KEY, BOOK_NAME_KEY, BOOK_TESTAMENT_KEY, CHAPTER_NUMBER_KEY,
    CHAPTER_SECTIONS_KEY, SECTION_HEADING_KEY,
};
use crate::model::{BookView, ChapterView, SectionHeadingView, Testament};
use crate::text::{concat_map, decimal, digit_char, lemma_concat_map_empty, lemma_concat_map_first};
use crate::roundtrip::lemma_json_round_trip;
use vstd::prelude::*;

verus! {

/// What a reader took from the front of a text is the written form of what
/// it read.
pub open spec fn took_written<T>(
    s: Seq<char>,
    parsed: Option<(T, int)>,
    written: spec_fn(T) -> Seq<char>,
) -> bool {
    match parsed {
        Some((item, n)) => 0 <= n <= s.len() && s.subrange(0, n) == written(item),
        None => true,
    }
}

/// The front of a text grows by a piece where the piece stands behind it.
pub proof fn lemma_front_extends(s: Seq<char>, at: int, piece: Seq<char>)
    requires
        0 <= at,
        at + piece.len() <= s.len(),
        s.skip(at).subrange(0, piece.len() as int) == piece,
    ensures
        s.subrange(0, at + piece.len()) == s.subrange(0, at) + piece,
{
    assert forall|i: int| 0 <= i < piece.len() implies s[at + i] == piece[i] by {
        assert(s.skip(at).subrange(0, piece.len() as int)[i] == s[at + i]);
    }
    assert(s.subrange(0, at + piece.len()) =~= s.subrange(0, at) + piece);
}

/// One character of the inside of a string is read only from its escaped
/// form.
pub proof fn lemma_parse_char_canonical(s: Seq<char>)
    ensures
        took_written(s, parse_char(s), |c: char| escape_char(c)),
{
    match parse_char(s) {
        Some((c, n)) => {
            if s[0] != '\\' {
                assert(s.subrange(0, 1) =~= seq![c]);
            } else if s[1] == 'u' {
                let high = hex_value(s[4])->0;
                let low = hex_value(s[5])->0;
                assert(c as u32 == high * 16 + low);
                assert(hex_digit_char(high) == s[4]);
                assert(hex_digit_char(low) == s[5]);
                assert(s.subrange(0, 6) =~= escape_char(c));
            } else {
                assert(s.subrange(0, 2) =~= escape_char(c));
            }
        },
        None => {},
    }
}

/// The inside of a string and its closing quote are read only from the
/// escaped text and a quote.
pub proof fn lemma_parse_string_body_canonical(s: Seq<char>)
    ensures
        took_written(s, parse_string_body(s), |text: Seq<char>| escaped(text) + seq!['"']),
    decreases s.len(),
{
    let escape = |c: char| escape_char(c);
    if s.len() > 0 {
        if s[0] == '"' {
            lemma_concat_map_empty(escape);
            assert(s.subrange(0, 1) =~= escaped(Seq::empty()) + seq!['"']);
        } else {
            match parse_char(s) {
                Some((c, n)) => {
                    lemma_parse_char_canonical(s);
                    lemma_parse_string_body_canonical(s.skip(n));
                    match parse_string_body(s.skip(n)) {
                        Some((more, m)) => {
                            let text = seq![c] + more;
                            lemma_concat_map_first(text, escape);
                            assert(text.drop_first() =~= more);
                            lemma_front_extends(s, n, escaped(more) + seq!['"']);
                            assert(s.subrange(0, n + m) =~= escaped(text) + seq!['"']);
                        },
                        None => {},
                    }
                },
                None => {},
            }
        }
    }
}

/// A string is read only from its written form.
pub proof fn lemma_parse_string_canonical(s: Seq<char>)
    ensures
        took_written(s, parse_string(s), |text: Seq<char>| json_string(text)),
{
    if s.len() > 0 && s[0] == '"' {
        lemma_parse_string_body_canonical(s.skip(1));
        match parse_string_body(s.skip(1)) {
            Some((text, n)) => {
                assert(s.subrange(0, 1) =~= seq!['"']);
                lemma_front_extends(s, 1, escaped(text) + seq!['"']);
                assert(s.subrange(0, n + 1) =~= json_string(text));
            },
            None => {},
        }
    }
}

/// Digits read behind a number that is not zero are the rest of the written
/// form of the number they make.
pub proof fn lemma_parse_digits_canonical(s: Seq<char>, value: nat)
    requires
        value >= 1,
    ensures
        0 <= parse_digits(s, value).1 <= s.len(),
        decimal(parse_digits(s, value).0) == decimal(value) + s.subrange(
            0,
            parse_digits(s, value).1,
        ),
    decreases s.len(),
{
    if s.len() > 0 && digit_value(s[0]) is Some {
        let d = digit_value(s[0])->0;
        let next = value * 10 + d;
        lemma_parse_digits_canonical(s.skip(1), next);
        let n = parse_digits(s.skip(1), next).1;
        assert(next / 10 == value && next % 10 == d);
        assert(digit_char(d) == s[0]);
        assert(decimal(next) == decimal(value).push(s[0]));
        assert(decimal(value).push(s[0]) + s.skip(1).subrange(0, n) =~= decimal(value)
            + s.subrange(0, n + 1));
    } else {
        assert(decimal(value) + s.subrange(0, 0) =~= decimal(value));
    }
}

/// Where no digit is read, the number read so far stays as it is.
pub proof fn lemma_parse_digits_count(s: Seq<char>, value: nat)
    ensures
        parse_digits(s, value).1 >= 0,
        parse_digits(s, value).1 == 0 ==> parse_digits(s, value).0 == value,
    decreases s.len(),
{
    if s.len() > 0 && digit_value(s[0]) is Some {
        lemma_parse_digits_count(s.skip(1), value * 10 + digit_value(s[0])->0);
    }
}

/// A number is read only from its written form.
pub proof fn lemma_parse_number_canonical(s: Seq<char>)
    ensures
        took_written(s, parse_number(s), |n: u32| decimal(n as nat)),
{
    match parse_number(s) {
        Some((v, n)) => {
            let d = digit_value(s[0])->0;
            assert(digit_char(d) == s[0]);
            if d == 0 {
                lemma_parse_digits_count(s.skip(1), 0);
                assert(s.subrange(0, 1) =~= seq!['0']);
            } else {
                lemma_parse_digits_canonical(s.skip(1), d);
                assert(seq![s[0]] + s.skip(1).subrange(0, n - 1) =~= s.subrange(0, n));
            }
        },
        None => {},
    }
}

/// The value of a testament is read only from its written form.
pub proof fn lemma_parse_testament_canonical(s: Seq<char>)
    ensures
        took_written(s, parse_testament(s), |t: Testament| testament_json(t)),
{
}

/// The reader of an item takes only the written form of the item.
pub open spec fn reads_only_written<T>(
    print: spec_fn(T) -> Seq<char>,
    parse: spec_fn(Seq<char>) -> Option<(T, int)>,
) -> bool {
    forall|t: Seq<char>| took_written(t, #[trigger] parse(t), print)
}

/// What follows the first item of an array is read only from its written
/// form.
pub proof fn lemma_parse_more_items_canonical<T>(
    s: Seq<char>,
    print: spec_fn(T) -> Seq<char>,
    parse: spec_fn(Seq<char>) -> Option<(T, int)>,
)
    requires
        reads_only_written(print, parse),
    ensures
        took_written(
            s,
            parse_more_items(s, parse),
            |items: Seq<T>|
                concat_map(items.map_values(print), |item: Seq<char>| next_item(item)) + seq![
                    ']',
                ],
        ),
    decreases s.len(),
{
    reveal(parse_more_items);
    let next = |item: Seq<char>| next_item(item);
    if s.len() > 0 {
        if s[0] == ']' {
            lemma_concat_map_empty(next);
            assert(Seq::<T>::empty().map_values(print) =~= Seq::<Seq<char>>::empty());
            assert(s.subrange(0, 1) =~= seq![']']);
        } else if s[0] == ',' {
            assert(took_written(s.skip(1), parse(s.skip(1)), print));
            match parse(s.skip(1)) {
                Some((x, n)) => {
                    if 0 <= n < s.len() {
                        lemma_parse_more_items_canonical(s.skip(1 + n), print, parse);
                        match parse_more_items(s.skip(1 + n), parse) {
                            Some((more, m)) => {
                                let items = seq![x] + more;
                                let parts = items.map_values(print);
                                lemma_concat_map_first(parts, next);
                                assert(parts.drop_first() =~= more.map_values(print));
                                assert(parts[0] == print(x));
                                assert(s.subrange(0, 1) =~= seq![',']);
                                lemma_front_extends(s, 1, print(x));
                                lemma_front_extends(
                                    s,
                                    1 + n,
                                    concat_map(more.map_values(print), next) + seq![']'],
                                );
                                assert(s.subrange(0, 1 + n + m) =~= concat_map(parts, next) + seq![
                                    ']',
                                ]);
                            },
                            None => {},
                        }
                    }
                },
                None => {},
            }
        }
    }
}

/// An array is read only from its written form.
pub proof fn lemma_parse_array_canonical<T>(
    s: Seq<char>,
    print: spec_fn(T) -> Seq<char>,
    parse: spec_fn(Seq<char>) -> Option<(T, int)>,
)
    requires
        reads_only_written(print, parse),
    ensures
        took_written(
            s,
            parse_array(s, parse),
            |items: Seq<T>| json_array(items.map_values(print)),
        ),
{
    reveal(parse_array);
    let next = |item: Seq<char>| next_item(item);
    if s.len() >= 2 && s[0] == '[' {
        if s[1] == ']' {
            assert(Seq::<T>::empty().map_values(print) =~= Seq::<Seq<char>>::empty());
            assert(s.subrange(0, 2) =~= seq!['[', ']']);
        } else {
            assert(took_written(s.skip(1), parse(s.skip(1)), print));
            match parse(s.skip(1)) {
                Some((x, n)) => {
                    if 0 <= n < s.len() {
                        lemma_parse_more_items_canonical(s.skip(1 + n), print, parse);
                        match parse_more_items(s.skip(1 + n), parse) {
                            Some((more, m)) => {
                                let items = seq![x] + more;
                                let parts = items.map_values(print);
                                assert(parts.drop_first() =~= more.map_values(print));
                                assert(parts[0] == print(x));
                                assert(s.subrange(0, 1) =~= seq!['[']);
                                lemma_front_extends(s, 1, print(x));
                                lemma_front_extends(
                                    s,
                                    1 + n,
                                    concat_map(more.map_values(print), next) + seq![']'],
                                );
                                assert(s.subrange(0, 1 + n + m) =~= json_array(parts));
                            },
                            None => {},
                        }
                    }
                },
                None => {},
            }
        }
    }
}

/// A closing brace at a position extends the front of the text by a brace.
pub proof fn lemma_front_extends_by_brace(s: Seq<char>, at: int)
    requires
        0 <= at < s.len(),
        s[at] == '}',
    ensures
        s.subrange(0, at + 1) == s.subrange(0, at) + seq!['}'],
{
    assert(s.subrange(0, at + 1) =~= s.subrange(0, at) + seq!['}']);
}

/// A key at a position extends the front of the text by the key.
pub proof fn lemma_front_extends_by_key(s: Seq<char>, at: int, key: Seq<char>)
    requires
        0 <= at <= s.len(),
        starts_with(s.skip(at), key),
    ensures
        at + key.len() <= s.len(),
        s.subrange(0, at + key.len()) == s.subrange(0, at) + key,
{
    lemma_front_extends(s, at, key);
}

/// The object of a section is read only from its written form.
pub proof fn lemma_parse_section_canonical(s: Seq<char>)
    ensures
        took_written(s, parse_section(s), |x: SectionHeadingView| section_json(x)),
{
    reveal(parse_section);
    match parse_section(s) {
        Some((section, total)) => {
            let k = SECTION_HEADING_KEY@.len() as int;
            let n = parse_string(s.skip(k)).unwrap().1;
            lemma_parse_string_canonical(s.skip(k));
            assert(s.subrange(0, 0) =~= Seq::empty());
            assert(s.skip(0) =~= s);
            lemma_front_extends_by_key(s, 0, SECTION_HEADING_KEY@);
            lemma_front_extends(s, k, json_string(section.heading));
            lemma_front_extends_by_brace(s, k + n);
            assert(Seq::<char>::empty() + SECTION_HEADING_KEY@ =~= SECTION_HEADING_KEY@);
        },
        None => {},
    }
}

/// The array of the sections of a chapter is read only from its written
/// form.
pub proof fn lemma_parse_sections_canonical(s: Seq<char>)
    ensures
        took_written(s, parse_sections(s), |x: Seq<SectionHeadingView>| sections_json(x)),
{
    let print = |x: SectionHeadingView| section_json(x);
    let parse = |t: Seq<char>| parse_section(t);
    assert forall|t: Seq<char>| took_written(t, #[trigger] parse(t), print) by {
        lemma_parse_section_canonical(t);
    }
    lemma_parse_array_canonical(s, print, parse);
}

/// The object of a chapter is read only from its written form.
pub proof fn lemma_parse_chapter_canonical(s: Seq<char>)
    ensures
        took_written(s, parse_chapter(s), |x: ChapterView| chapter_json(x)),
{
    reveal(parse_chapter);
    match parse_chapter(s) {
        Some((chapter, total)) => {
            let k = CHAPTER_NUMBER_KEY@.len() as int;
            let l = CHAPTER_SECTIONS_KEY@.len() as int;
            let n = parse_number(s.skip(k)).unwrap().1;
            let m = parse_sections(s.skip(k + n + l)).unwrap().1;
            lemma_parse_number_canonical(s.skip(k));
            lemma_parse_sections_canonical(s.skip(k + n + l));
            assert(s.subrange(0, 0) =~= Seq::empty());
            assert(s.skip(0) =~= s);
            lemma_front_extends_by_key(s, 0, CHAPTER_NUMBER_KEY@);
            lemma_front_extends(s, k, decimal(chapter.chapter_number as nat));
            lemma_front_extends_by_key(s, k + n, CHAPTER_SECTIONS_KEY@);
            lemma_front_extends(s, k + n + l, sections_json(chapter.sections));
            lemma_front_extends_by_brace(s, k + n + l + m);
            assert(Seq::<char>::empty() + CHAPTER_NUMBER_KEY@ =~= CHAPTER_NUMBER_KEY@);
        },
        None => {},
    }
}

/// The array of the chapters of a book is read only from its written form.
pub proof fn lemma_parse_chapters_canonical(s: Seq<char>)
    ensures
        took_written(s, parse_chapters(s), |x: Seq<ChapterView>| chapters_json(x)),
{
    let print = |x: ChapterView| chapter_json(x);
    let parse = |t: Seq<char>| parse_chapter(t);
    assert forall|t: Seq<char>| took_written(t, #[trigger] parse(t), print) by {
        lemma_parse_chapter_canonical(t);
    }
    lemma_parse_array_canonical(s, print, parse);
}

/// The object of a book is read only from its written form.
pub proof fn lemma_parse_book_canonical(s: Seq<char>)
    ensures
        took_written(s, parse_book(s), |x: BookView| book_json(x)),
{
    reveal(parse_book);
    match parse_book(s) {
        Some((book, total)) => {
            let k = BOOK_NAME_KEY@.len() as int;
            let l = BOOK_TESTAMENT_KEY@.len() as int;
            let c = BOOK_CHAPTERS_KEY@.len() as int;
            let n = parse_string(s.skip(k)).unwrap().1;
            let t = parse_testament(s.skip(k + n + l)).unwrap().1;
            let m = parse_chapters(s.skip(k + n + l + t + c)).unwrap().1;
            lemma_parse_string_canonical(s.skip(k));
            lemma_parse_testament_canonical(s.skip(k + n + l));
            lemma_parse_chapters_canonical(s.skip(k + n + l + t + c));
            assert(s.subrange(0, 0) =~= Seq::empty());
            assert(s.skip(0) =~= s);
            lemma_front_extends_by_key(s, 0, BOOK_NAME_KEY@);
            lemma_front_extends(s, k, json_string(book.name));
            lemma_front_extends_by_key(s, k + n, BOOK_TESTAMENT_KEY@);
            lemma_front_extends(s, k + n + l, testament_json(book.testament));
            lemma_front_extends_by_key(s, k + n + l + t, BOOK_CHAPTERS_KEY@);
            lemma_front_extends(s, k + n + l + t + c, chapters_json(book.chapters));
            lemma_front_extends_by_brace(s, k + n + l + t + c + m);
            assert(Seq::<char>::empty() + BOOK_NAME_KEY@ =~= BOOK_NAME_KEY@);
            reveal(book_json);
        },
        None => {},
    }
}

/// The array of the books of a catalog is read only from its written form.
pub proof fn lemma_parse_books_canonical(s: Seq<char>)
    ensures
        took_written(s, parse_books(s), |x: Seq<BookView>| catalog_json(x)),
{
    let print = |x: BookView| book_json(x);
    let parse = |t: Seq<char>| parse_book(t);
    assert forall|t: Seq<char>| took_written(t, #[trigger] parse(t), print) by {
        lemma_parse_book_canonical(t);
    }
    lemma_parse_array_canonical(s, print, parse);
}

/// A text is read as a catalog only where it is the document of that
/// catalog.
pub proof fn lemma_json_canonical(s: Seq<char>, catalog: Seq<BookView>)
    requires
        parse_document(s) == Some(catalog),
    ensures
        s == catalog_json(catalog),
{
    lemma_parse_books_canonical(s);
    assert(s.subrange(0, s.len() as int) =~= s);
}

/// The grammar reads a text as a catalog exactly where the text is the
/// document of that catalog.
pub proof fn lemma_parse_document_exact(s: Seq<char>, catalog: Seq<BookView>)
    ensures
        parse_document(s) == Some(catalog) <==> s == catalog_json(catalog),
{
    if parse_document(s) == Some(catalog) {
        lemma_json_canonical(s, catalog);
    }
    if s == catalog_json(catalog) {
        lemma_json_round_trip(catalog);
    }
}

} // verus!
