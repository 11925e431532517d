//! The grammar of the JSON document, as a parser over mathematical text.
//!
//! Each function reads one item from the front of a text and gives the item
//! together with the number of characters it took, or `None` where the text
//! does not begin with such an item. Only the compact form that
//! [`crate::json`] writes is accepted: no white space, no other order of
//! members, no other way to escape a character.

use crate::json::{
    escape_char, BOOK_CHAPTERS_KEY, BOOK_NAME_KEY, BOOK_TESTAMENT_KEY, CHAPTER_NUMBER_KEY,
    CHAPTER_SECTIONS_KEY, NEW_TESTAMENT_VALUE, OLD_TESTAMENT_VALUE, SECTION_HEADING_KEY,
};
use crate::model::{BookView, ChapterView, SectionHeadingView, Testament};
use vstd::prelude::*;

verus! {

/// Whether a text begins with the given characters.
pub open spec fn starts_with(s: Seq<char>, prefix: Seq<char>) -> bool {
    prefix.len() <= s.len() && s.subrange(0, prefix.len() as int) == prefix
}

/// The value of a lowercase hexadecimal digit.
pub open spec fn hex_value(c: char) -> Option<nat> {
    if c == '0' {
        Some(0)
    } else if c == '1' {
        Some(1)
    } else if c == '2' {
        Some(2)
    } else if c == '3' {
        Some(3)
    } else if c == '4' {
        Some(4)
    } else if c == '5' {
        Some(5)
    } else if c == '6' {
        Some(6)
    } else if c == '7' {
        Some(7)
    } else if c == '8' {
        Some(8)
    } else if c == '9' {
        Some(9)
    } else if c == 'a' {
        Some(10)
    } else if c == 'b' {
        Some(11)
    } else if c == 'c' {
        Some(12)
    } else if c == 'd' {
        Some(13)
    } else if c == 'e' {
        Some(14)
    } else if c == 'f' {
        Some(15)
    } else {
        None
    }
}

/// The character that a short escape stands for, given the character after
/// the backslash.
pub open spec fn short_escape(c: char) -> Option<char> {
    if c == '"' {
        Some('"')
    } else if c == '\\' {
        Some('\\')
    } else if c == 'b' {
        Some('\u{08}')
    } else if c == 'f' {
        Some('\u{0c}')
    } else if c == 'n' {
        Some('\n')
    } else if c == 'r' {
        Some('\r')
    } else if c == 't' {
        Some('\t')
    } else {
        None
    }
}

/// Reads an escape of the form `\u00` with two hexadecimal digits. It is
/// accepted only for the control characters that have no short escape.
pub open spec fn parse_long_escape(s: Seq<char>) -> Option<(char, int)> {
    if s.len() >= 6 && s[2] == '0' && s[3] == '0' {
        match (hex_value(s[4]), hex_value(s[5])) {
            (Some(high), Some(low)) => {
                let c = ((high * 16 + low) as u8) as char;
                if high < 2 && escape_char(c).len() == 6 {
                    Some((c, 6))
                } else {
                    None
                }
            },
            _ => None,
        }
    } else {
        None
    }
}

/// Reads one character of the inside of a string: a character that stands
/// for itself, or an escape. The closing quote is no such character.
pub open spec fn parse_char(s: Seq<char>) -> Option<(char, int)> {
    if s.len() == 0 || s[0] == '"' {
        None
    } else if s[0] != '\\' {
        if (s[0] as u32) < 0x20 {
            None
        } else {
            Some((s[0], 1))
        }
    } else if s.len() < 2 {
        None
    } else if s[1] == 'u' {
        parse_long_escape(s)
    } else {
        match short_escape(s[1]) {
            Some(c) => Some((c, 2)),
            None => None,
        }
    }
}

/// Reads the inside of a string and its closing quote.
pub open spec fn parse_string_body(s: Seq<char>) -> Option<(Seq<char>, int)>
    decreases s.len(),
{
    if s.len() == 0 {
        None
    } else if s[0] == '"' {
        Some((Seq::empty(), 1))
    } else {
        match parse_char(s) {
            Some((c, n)) => if 1 <= n <= s.len() {
                match parse_string_body(s.skip(n)) {
                    Some((text, m)) => Some((seq![c] + text, n + m)),
                    None => None,
                }
            } else {
                None
            },
            None => None,
        }
    }
}

/// Reads a string: a quote, the inside, a quote.
pub open spec fn parse_string(s: Seq<char>) -> Option<(Seq<char>, int)> {
    if s.len() > 0 && s[0] == '"' {
        match parse_string_body(s.skip(1)) {
            Some((text, n)) => Some((text, n + 1)),
            None => None,
        }
    } else {
        None
    }
}

/// The value of a decimal digit.
pub open spec fn digit_value(c: char) -> Option<nat> {
    match hex_value(c) {
        Some(d) => if d < 10 {
            Some(d)
        } else {
            None
        },
        None => None,
    }
}

/// Reads the digits at the front of a text, continuing the number `value`
/// read so far. Gives the number and how many digits were read.
pub open spec fn parse_digits(s: Seq<char>, value: nat) -> (nat, int)
    decreases s.len(),
{
    if s.len() > 0 && digit_value(s[0]) is Some {
        let (v, n) = parse_digits(s.skip(1), value * 10 + digit_value(s[0])->0);
        (v, n + 1)
    } else {
        (value, 0)
    }
}

/// Reads a number: all the digits at the front of the text. There must be a
/// digit, no zero in front of another digit, and the number must fit.
pub open spec fn parse_number(s: Seq<char>) -> Option<(u32, int)> {
    let (v, n) = parse_digits(s, 0);
    if n == 0 || (n > 1 && s[0] == '0') || v > u32::MAX {
        None
    } else {
        Some((v as u32, n))
    }
}

/// Reads the value of a testament.
pub open spec fn parse_testament(s: Seq<char>) -> Option<(Testament, int)> {
    if starts_with(s, OLD_TESTAMENT_VALUE@) {
        Some((Testament::Old, OLD_TESTAMENT_VALUE@.len() as int))
    } else if starts_with(s, NEW_TESTAMENT_VALUE@) {
        Some((Testament::New, NEW_TESTAMENT_VALUE@.len() as int))
    } else {
        None
    }
}

/// Reads what follows the first item of an array: any number of further
/// items, each after a comma, and the closing bracket.
#[verifier::opaque]
pub open spec fn parse_more_items<T>(
    s: Seq<char>,
    item: spec_fn(Seq<char>) -> Option<(T, int)>,
) -> Option<(Seq<T>, int)>
    decreases s.len(),
{
    if s.len() == 0 {
        None
    } else if s[0] == ']' {
        Some((Seq::empty(), 1))
    } else if s[0] == ',' {
        match item(s.skip(1)) {
            Some((x, n)) => if 0 <= n < s.len() {
                match parse_more_items(s.skip(1 + n), item) {
                    Some((xs, m)) => Some((seq![x] + xs, 1 + n + m)),
                    None => None,
                }
            } else {
                None
            },
            None => None,
        }
    } else {
        None
    }
}

/// Reads an array of items.
#[verifier::opaque]
pub open spec fn parse_array<T>(
    s: Seq<char>,
    item: spec_fn(Seq<char>) -> Option<(T, int)>,
) -> Option<(Seq<T>, int)> {
    if s.len() < 2 || s[0] != '[' {
        None
    } else if s[1] == ']' {
        Some((Seq::empty(), 2))
    } else {
        match item(s.skip(1)) {
            Some((x, n)) => if 0 <= n < s.len() {
                match parse_more_items(s.skip(1 + n), item) {
                    Some((xs, m)) => Some((seq![x] + xs, 1 + n + m)),
                    None => None,
                }
            } else {
                None
            },
            None => None,
        }
    }
}

/// Reads the object of a section.
#[verifier::opaque]
pub open spec fn parse_section(s: Seq<char>) -> Option<(SectionHeadingView, int)> {
    let k = SECTION_HEADING_KEY@.len() as int;
    if !starts_with(s, SECTION_HEADING_KEY@) {
        None
    } else {
        match parse_string(s.skip(k)) {
            Some((heading, n)) => if 0 <= n && k + n < s.len() && s[k + n] == '}' {
                Some((SectionHeadingView { heading }, k + n + 1))
            } else {
                None
            },
            None => None,
        }
    }
}

/// Reads the array of the sections of a chapter.
pub open spec fn parse_sections(s: Seq<char>) -> Option<(Seq<SectionHeadingView>, int)> {
    parse_array(s, |t: Seq<char>| parse_section(t))
}

/// Reads the object of a chapter.
#[verifier::opaque]
pub open spec fn parse_chapter(s: Seq<char>) -> Option<(ChapterView, int)> {
    let k = CHAPTER_NUMBER_KEY@.len() as int;
    let l = CHAPTER_SECTIONS_KEY@.len() as int;
    if !starts_with(s, CHAPTER_NUMBER_KEY@) {
        None
    } else {
        match parse_number(s.skip(k)) {
            Some((chapter_number, n)) => if 0 <= n && k + n <= s.len() && starts_with(
                s.skip(k + n),
                CHAPTER_SECTIONS_KEY@,
            ) {
                match parse_sections(s.skip(k + n + l)) {
                    Some((sections, m)) => if 0 <= m && k + n + l + m < s.len() && s[k + n + l
                        + m] == '}' {
                        Some((ChapterView { chapter_number, sections }, k + n + l + m + 1))
                    } else {
                        None
                    },
                    None => None,
                }
            } else {
                None
            },
            None => None,
        }
    }
}

/// Reads the array of the chapters of a book.
pub open spec fn parse_chapters(s: Seq<char>) -> Option<(Seq<ChapterView>, int)> {
    parse_array(s, |t: Seq<char>| parse_chapter(t))
}

/// Reads the object of a book.
#[verifier::opaque]
pub open spec fn parse_book(s: Seq<char>) -> Option<(BookView, int)> {
    let k = BOOK_NAME_KEY@.len() as int;
    let l = BOOK_TESTAMENT_KEY@.len() as int;
    let c = BOOK_CHAPTERS_KEY@.len() as int;
    if !starts_with(s, BOOK_NAME_KEY@) {
        None
    } else {
        match parse_string(s.skip(k)) {
            Some((name, n)) => if 0 <= n && k + n <= s.len() && starts_with(
                s.skip(k + n),
                BOOK_TESTAMENT_KEY@,
            ) {
                match parse_testament(s.skip(k + n + l)) {
                    Some((testament, t)) => if k + n + l + t <= s.len() && starts_with(
                        s.skip(k + n + l + t),
                        BOOK_CHAPTERS_KEY@,
                    ) {
                        match parse_chapters(s.skip(k + n + l + t + c)) {
                            Some((chapters, m)) => if 0 <= m && k + n + l + t + c + m < s.len()
                                && s[k + n + l + t + c + m] == '}' {
                                Some(
                                    (
                                        BookView { name, testament, chapters },
                                        k + n + l + t + c + m + 1,
                                    ),
                                )
                            } else {
                                None
                            },
                            None => None,
                        }
                    } else {
                        None
                    },
                    None => None,
                }
            } else {
                None
            },
            None => None,
        }
    }
}

/// Reads the array of the books of a catalog.
pub open spec fn parse_books(s: Seq<char>) -> Option<(Seq<BookView>, int)> {
    parse_array(s, |t: Seq<char>| parse_book(t))
}

/// Reads a whole document: the array of the books and nothing after it.
pub open spec fn parse_document(s: Seq<char>) -> Option<Seq<BookView>> {
    match parse_books(s) {
        Some((catalog, n)) => if n == s.len() {
            Some(catalog)
        } else {
            None
        },
        None => None,
    }
}

} // verus!
