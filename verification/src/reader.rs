//! Reading the JSON document back into a catalog.
//!
//! Every function here reads one item of the grammar of [`crate::grammar`]
//! at a position of the text and gives the item and the position behind it,
//! exactly where the grammar reads the item there.

use crate::canonical::lemma_json_canonical;
use crate::grammar::{
    digit_value, hex_value, parse_array, parse_book, parse_books, parse_chapter, parse_chapters,
    parse_char, parse_digits, parse_document, parse_long_escape, parse_more_items, parse_number,
    parse_section, parse_sections, parse_string, parse_string_body, parse_testament,
    short_escape, starts_with,
};
use crate::json::{
    catalog_json, to_json, BOOK_CHAPTERS_KEY, BOOK_NAME_KEY, BOOK_TESTAMENT_KEY,
    CHAPTER_NUMBER_KEY, CHAPTER_SECTIONS_KEY, NEW_TESTAMENT_VALUE, OLD_TESTAMENT_VALUE,
    SECTION_HEADING_KEY,
};
use crate::model::{
    catalog_view, chapters_view, sections_view, Book, BookView, Chapter, SectionHeading,
    Testament,
};
use crate::roundtrip::lemma_json_round_trip;
use crate::text::push_char;
use vstd::prelude::*;

verus! {

/// What an exec reader has to return at position `pos` of a text, given
/// what the grammar reads from there: the same item, and the position behind
/// it in place of the number of characters taken.
pub open spec fn agrees<T>(
    found: Option<(T, usize)>,
    pos: usize,
    parsed: Option<(T, int)>,
) -> bool {
    match found {
        Some((item, end)) => pos <= end && parsed == Some((item, end - pos)),
        None => parsed is None,
    }
}

/// The position behind the item that a reader found.
pub open spec fn end_of<T>(found: Option<(T, usize)>) -> int {
    match found {
        Some((_, end)) => end as int,
        None => 0,
    }
}

/// The characters of a text.
pub fn chars_of(text: &str) -> (chars: Vec<char>)
    ensures
        chars@ == text@,
{
    let mut chars: Vec<char> = Vec::new();
    for c in it: text.chars()
        invariant
            it.seq() == text@,
            chars@ == text@.take(it.index() as int),
    {
        chars.push(c);
        assert(chars@ =~= text@.take(it.index() + 1));
    }
    assert(text@.take(text@.len() as int) =~= text@);
    chars
}

/// Reads the given characters at a position.
pub fn read_literal(input: &Vec<char>, pos: usize, literal: &str) -> (end: Option<usize>)
    requires
        pos <= input@.len(),
    ensures
        match end {
            Some(end) => starts_with(input@.skip(pos as int), literal@) && end == pos
                + literal@.len(),
            None => !starts_with(input@.skip(pos as int), literal@),
        },
{
    let expected = chars_of(literal);
    let ghost s = input@.skip(pos as int);
    if input.len() - pos < expected.len() {
        return None;
    }
    let mut i: usize = 0;
    while i < expected.len()
        invariant
            i <= expected@.len(),
            pos + expected@.len() <= input@.len() <= usize::MAX,
            s == input@.skip(pos as int),
            expected@ == literal@,
            forall|j: int| 0 <= j < i ==> s[j] == expected@[j],
        decreases expected@.len() - i,
    {
        if input[pos + i] != expected[i] {
            assert(s.subrange(0, expected@.len() as int)[i as int] != expected@[i as int]);
            return None;
        }
        i = i + 1;
    }
    assert(s.subrange(0, expected@.len() as int) =~= expected@);
    Some(pos + expected.len())
}

/// The value of a decimal digit.
pub fn digit_of(c: char) -> (d: Option<u32>)
    ensures
        match d {
            Some(d) => digit_value(c) == Some(d as nat),
            None => digit_value(c) is None,
        },
{
    match c {
        '0' => Some(0),
        '1' => Some(1),
        '2' => Some(2),
        '3' => Some(3),
        '4' => Some(4),
        '5' => Some(5),
        '6' => Some(6),
        '7' => Some(7),
        '8' => Some(8),
        '9' => Some(9),
        _ => None,
    }
}

/// The value of a lowercase hexadecimal digit.
pub fn hex_of(c: char) -> (d: Option<u32>)
    ensures
        match d {
            Some(d) => hex_value(c) == Some(d as nat),
            None => hex_value(c) is None,
        },
{
    match c {
        'a' => Some(10),
        'b' => Some(11),
        'c' => Some(12),
        'd' => Some(13),
        'e' => Some(14),
        'f' => Some(15),
        _ => digit_of(c),
    }
}

/// The character that a short escape stands for.
pub fn short_escape_of(c: char) -> (escaped: Option<char>)
    ensures
        escaped == short_escape(c),
{
    match c {
        '"' => Some('"'),
        '\\' => Some('\\'),
        'b' => Some('\u{08}'),
        'f' => Some('\u{0c}'),
        'n' => Some('\n'),
        'r' => Some('\r'),
        't' => Some('\t'),
        _ => None,
    }
}

/// Reads an escape with four hexadecimal digits at a position.
fn read_long_escape(input: &Vec<char>, pos: usize) -> (found: Option<(char, usize)>)
    requires
        pos <= input@.len(),
    ensures
        agrees(found, pos, parse_long_escape(input@.skip(pos as int))),
        found is Some ==> end_of(found) == pos + 6 && pos + 6 <= input@.len(),
{
    let ghost s = input@.skip(pos as int);
    if input.len() - pos < 6 {
        return None;
    }
    assert(s[2] == input@[pos + 2] && s[3] == input@[pos + 3]);
    assert(s[4] == input@[pos + 4] && s[5] == input@[pos + 5]);
    if input[pos + 2] != '0' || input[pos + 3] != '0' {
        return None;
    }
    match (hex_of(input[pos + 4]), hex_of(input[pos + 5])) {
        (Some(high), Some(low)) => {
            if high >= 2 {
                return None;
            }
            let code: u32 = high * 16 + low;
            if code == 8 || code == 9 || code == 10 || code == 12 || code == 13 {
                return None;
            }
            let c = (code as u8) as char;
            Some((c, pos + 6))
        },
        _ => None,
    }
}

/// Reads one character of the inside of a string at a position.
fn read_char(input: &Vec<char>, pos: usize) -> (found: Option<(char, usize)>)
    requires
        pos <= input@.len(),
    ensures
        agrees(found, pos, parse_char(input@.skip(pos as int))),
        found is Some ==> pos < end_of(found) <= input@.len(),
{
    let ghost s = input@.skip(pos as int);
    if pos >= input.len() {
        return None;
    }
    let c = input[pos];
    assert(s[0] == c);
    if c == '"' {
        None
    } else if c != '\\' {
        if (c as u32) < 0x20 {
            None
        } else {
            Some((c, pos + 1))
        }
    } else if input.len() - pos < 2 {
        None
    } else {
        assert(s[1] == input@[pos + 1]);
        if input[pos + 1] == 'u' {
            read_long_escape(input, pos)
        } else {
            match short_escape_of(input[pos + 1]) {
                Some(escaped) => Some((escaped, pos + 2)),
                None => None,
            }
        }
    }
}

/// What reading the inside of a string gives once `text` has been read over
/// `taken` characters and `rest` is what reading on gives.
pub open spec fn string_so_far(
    text: Seq<char>,
    taken: int,
    rest: Option<(Seq<char>, int)>,
) -> Option<(Seq<char>, int)> {
    match rest {
        Some((more, n)) => Some((text + more, taken + n)),
        None => None,
    }
}

/// Reads a string at a position.
#[verifier::loop_isolation(false)]
pub fn read_string(input: &Vec<char>, pos: usize) -> (found: Option<(String, usize)>)
    requires
        pos <= input@.len(),
    ensures
        match found {
            Some((text, end)) => pos <= end <= input@.len() && parse_string(
                input@.skip(pos as int),
            ) == Some((text@, end - pos)),
            None => parse_string(input@.skip(pos as int)) is None,
        },
{
    let ghost s = input@;
    if pos >= input.len() || input[pos] != '"' {
        assert(pos < s.len() ==> s.skip(pos as int)[0] == s[pos as int]);
        return None;
    }
    assert(s.skip(pos as int)[0] == '"');
    assert(s.skip(pos as int).skip(1) =~= s.skip(pos + 1));
    let mut text = String::new();
    let mut cur: usize = pos + 1;
    assert(text@ + Seq::<char>::empty() =~= Seq::<char>::empty());
    loop
        invariant
            pos + 1 <= cur <= input@.len(),
            s == input@,
            parse_string_body(s.skip(pos + 1)) == string_so_far(
                text@,
                cur - (pos + 1),
                parse_string_body(s.skip(cur as int)),
            ),
        decreases input@.len() - cur,
    {
        let ghost here = s.skip(cur as int);
        if cur >= input.len() {
            return None;
        }
        assert(here[0] == s[cur as int]);
        if input[cur] == '"' {
            assert(text@ + Seq::<char>::empty() =~= text@);
            return Some((text, cur + 1));
        }
        match read_char(input, cur) {
            None => {
                return None;
            },
            Some((c, end)) => {
                proof {
                    assert(here.skip(end - cur) =~= s.skip(end as int));
                    match parse_string_body(s.skip(end as int)) {
                        Some((more, n)) => {
                            assert(text@.push(c) + more =~= text@ + (seq![c] + more));
                        },
                        None => {},
                    }
                }
                push_char(&mut text, c);
                cur = end;
            },
        }
    }
}

/// Reading digits never makes the number read so far smaller.
pub proof fn lemma_parse_digits_grows(s: Seq<char>, value: nat)
    ensures
        parse_digits(s, value).0 >= value,
        parse_digits(s, value).1 >= 0,
    decreases s.len(),
{
    if s.len() > 0 && digit_value(s[0]) is Some {
        lemma_parse_digits_grows(s.skip(1), value * 10 + digit_value(s[0])->0);
    }
}

/// Reads a number at a position.
pub fn read_number(input: &Vec<char>, pos: usize) -> (found: Option<(u32, usize)>)
    requires
        pos <= input@.len(),
    ensures
        agrees(found, pos, parse_number(input@.skip(pos as int))),
        found is Some ==> end_of(found) <= input@.len(),
{
    let ghost s = input@;
    let mut value: u64 = 0;
    let mut cur: usize = pos;
    loop
        invariant
            pos <= cur <= input@.len(),
            s == input@,
            value <= u32::MAX,
            parse_digits(s.skip(pos as int), 0) == (
                parse_digits(s.skip(cur as int), value as nat).0,
                parse_digits(s.skip(cur as int), value as nat).1 + (cur - pos),
            ),
        ensures
            parse_digits(s.skip(cur as int), value as nat) == (value as nat, 0int),
        decreases input@.len() - cur,
    {
        let ghost here = s.skip(cur as int);
        if cur >= input.len() {
            break ;
        }
        assert(here[0] == s[cur as int]);
        match digit_of(input[cur]) {
            None => {
                break ;
            },
            Some(d) => {
                let next: u64 = value * 10 + d as u64;
                assert(here.skip(1) =~= s.skip(cur + 1));
                if next > u32::MAX as u64 {
                    proof {
                        lemma_parse_digits_grows(s.skip(cur + 1), next as nat);
                    }
                    return None;
                }
                value = next;
                cur = cur + 1;
            },
        }
    }
    assert(parse_digits(s.skip(cur as int), value as nat) == (value as nat, 0int));
    if cur == pos {
        return None;
    }
    assert(s.skip(pos as int)[0] == s[pos as int]);
    if cur - pos > 1 && input[pos] == '0' {
        return None;
    }
    Some((value as u32, cur))
}

/// Reads the value of a testament at a position.
pub fn read_testament(input: &Vec<char>, pos: usize) -> (found: Option<(Testament, usize)>)
    requires
        pos <= input@.len(),
    ensures
        agrees(found, pos, parse_testament(input@.skip(pos as int))),
        found is Some ==> end_of(found) <= input@.len(),
{
    match read_literal(input, pos, OLD_TESTAMENT_VALUE) {
        Some(end) => Some((Testament::Old, end)),
        None => match read_literal(input, pos, NEW_TESTAMENT_VALUE) {
            Some(end) => Some((Testament::New, end)),
            None => None,
        },
    }
}

/// What reading an array gives once `items` have been read over `taken`
/// characters and `rest` is what reading on gives.
pub open spec fn items_so_far<T>(
    items: Seq<T>,
    taken: int,
    rest: Option<(Seq<T>, int)>,
) -> Option<(Seq<T>, int)> {
    match rest {
        Some((more, n)) => Some((items + more, taken + n)),
        None => None,
    }
}

/// How the grammar reads the start of an array: the opening bracket, and
/// then either the closing bracket or the first item and what follows it.
pub proof fn lemma_array_start<T>(s: Seq<char>, item: spec_fn(Seq<char>) -> Option<(T, int)>)
    ensures
        s.len() < 2 || s[0] != '[' ==> parse_array(s, item) is None,
        s.len() >= 2 && s[0] == '[' && s[1] == ']' ==> parse_array(s, item) == Some(
            (Seq::<T>::empty(), 2int),
        ),
        s.len() >= 2 && s[0] == '[' && s[1] != ']' ==> parse_array(s, item) == match item(
            s.skip(1),
        ) {
            Some((x, n)) => if 0 <= n < s.len() {
                items_so_far(seq![x], 1 + n, parse_more_items(s.skip(1 + n), item))
            } else {
                None
            },
            None => None,
        },
{
    reveal(parse_array);
}

/// How the grammar reads on in an array: the closing bracket, or a comma
/// with the next item and what follows it.
pub proof fn lemma_more_items_step<T>(s: Seq<char>, item: spec_fn(Seq<char>) -> Option<(T, int)>)
    ensures
        s.len() == 0 ==> parse_more_items(s, item) is None,
        s.len() > 0 && s[0] == ']' ==> parse_more_items(s, item) == Some(
            (Seq::<T>::empty(), 1int),
        ),
        s.len() > 0 && s[0] != ']' && s[0] != ',' ==> parse_more_items(s, item) is None,
        s.len() > 0 && s[0] == ',' ==> parse_more_items(s, item) == match item(s.skip(1)) {
            Some((x, n)) => if 0 <= n < s.len() {
                items_so_far(seq![x], 1 + n, parse_more_items(s.skip(1 + n), item))
            } else {
                None
            },
            None => None,
        },
{
    reveal(parse_more_items);
}

/// Reading one more item after some items is reading all of them.
pub proof fn lemma_items_so_far_push<T>(
    items: Seq<T>,
    taken: int,
    x: T,
    n: int,
    rest: Option<(Seq<T>, int)>,
)
    ensures
        items_so_far(items, taken, items_so_far(seq![x], n, rest)) == items_so_far(
            items.push(x),
            taken + n,
            rest,
        ),
{
    match rest {
        Some((more, m)) => {
            assert(items + (seq![x] + more) =~= items.push(x) + more);
        },
        None => {},
    }
}

/// Reads the object of a section at a position.
pub fn read_section(input: &Vec<char>, pos: usize) -> (found: Option<(SectionHeading, usize)>)
    requires
        pos <= input@.len(),
    ensures
        match found {
            Some((section, end)) => pos <= end <= input@.len() && parse_section(
                input@.skip(pos as int),
            ) == Some((section@, end - pos)),
            None => parse_section(input@.skip(pos as int)) is None,
        },
{
    proof {
        reveal(parse_section);
    }
    let ghost s = input@.skip(pos as int);
    let after_key = match read_literal(input, pos, SECTION_HEADING_KEY) {
        Some(end) => end,
        None => {
            return None;
        },
    };
    assert(s.skip(SECTION_HEADING_KEY@.len() as int) =~= input@.skip(after_key as int));
    let (heading, after_heading) = match read_string(input, after_key) {
        Some(found) => found,
        None => {
            return None;
        },
    };
    if after_heading >= input.len() {
        return None;
    }
    assert(s[after_heading - pos] == input@[after_heading as int]);
    if input[after_heading] != '}' {
        return None;
    }
    Some((SectionHeading { heading }, after_heading + 1))
}

/// Reads the array of the sections of a chapter at a position.
pub fn read_sections(input: &Vec<char>, pos: usize) -> (found: Option<(Vec<SectionHeading>, usize)>)
    requires
        pos <= input@.len(),
    ensures
        match found {
            Some((sections, end)) => pos <= end <= input@.len() && parse_sections(
                input@.skip(pos as int),
            ) == Some((sections_view(sections@), end - pos)),
            None => parse_sections(input@.skip(pos as int)) is None,
        },
{
    let ghost s = input@.skip(pos as int);
    let ghost item = |t: Seq<char>| parse_section(t);
    proof {
        lemma_array_start(s, item);
    }
    if input.len() - pos < 2 {
        return None;
    }
    assert(s[0] == input@[pos as int] && s[1] == input@[pos + 1]);
    if input[pos] != '[' {
        return None;
    }
    let mut sections: Vec<SectionHeading> = Vec::new();
    if input[pos + 1] == ']' {
        assert(sections_view(sections@) =~= Seq::empty());
        return Some((sections, pos + 2));
    }
    let mut cur: usize = pos + 1;
    assert(s.skip(1) =~= input@.skip(pos + 1));
    match read_section(input, pos + 1) {
        None => {
            return None;
        },
        Some((first, end)) => {
            proof {
                assert(s.skip(1 + (end - (pos + 1))) =~= input@.skip(end as int));
                assert(sections_view(sections@.push(first)) =~= seq![first@]);
            }
            sections.push(first);
            cur = end;
        },
    }
    loop
        invariant
            pos < cur <= input@.len(),
            s == input@.skip(pos as int),
            item == |t: Seq<char>| parse_section(t),
            parse_array(s, item) == items_so_far(
                sections_view(sections@),
                cur - pos,
                parse_more_items(input@.skip(cur as int), item),
            ),
        decreases input@.len() - cur,
    {
        let ghost here = input@.skip(cur as int);
        proof {
            lemma_more_items_step(here, item);
        }
        if cur >= input.len() {
            return None;
        }
        assert(here[0] == input@[cur as int]);
        if input[cur] == ']' {
            assert(sections_view(sections@) + Seq::empty() =~= sections_view(sections@));
            return Some((sections, cur + 1));
        }
        if input[cur] != ',' {
            return None;
        }
        assert(here.skip(1) =~= input@.skip(cur + 1));
        match read_section(input, cur + 1) {
            None => {
                return None;
            },
            Some((next, end)) => {
                proof {
                    assert(here.skip(1 + (end - (cur + 1))) =~= input@.skip(end as int));
                    lemma_items_so_far_push(
                        sections_view(sections@),
                        cur - pos,
                        next@,
                        1 + (end - (cur + 1)),
                        parse_more_items(input@.skip(end as int), item),
                    );
                    assert(sections_view(sections@.push(next)) =~= sections_view(sections@).push(
                        next@,
                    ));
                }
                sections.push(next);
                cur = end;
            },
        }
    }
}

/// Reads the object of a chapter at a position.
pub fn read_chapter(input: &Vec<char>, pos: usize) -> (found: Option<(Chapter, usize)>)
    requires
        pos <= input@.len(),
    ensures
        match found {
            Some((chapter, end)) => pos <= end <= input@.len() && parse_chapter(
                input@.skip(pos as int),
            ) == Some((chapter@, end - pos)),
            None => parse_chapter(input@.skip(pos as int)) is None,
        },
{
    proof {
        reveal(parse_chapter);
    }
    let ghost s = input@.skip(pos as int);
    let after_key = match read_literal(input, pos, CHAPTER_NUMBER_KEY) {
        Some(end) => end,
        None => {
            return None;
        },
    };
    assert(s.skip(after_key - pos) =~= input@.skip(after_key as int));
    let (chapter_number, after_number) = match read_number(input, after_key) {
        Some(found) => found,
        None => {
            return None;
        },
    };
    assert(s.skip(after_number - pos) =~= input@.skip(after_number as int));
    let after_sections_key = match read_literal(input, after_number, CHAPTER_SECTIONS_KEY) {
        Some(end) => end,
        None => {
            return None;
        },
    };
    assert(s.skip(after_sections_key - pos) =~= input@.skip(after_sections_key as int));
    let (sections, after_sections) = match read_sections(input, after_sections_key) {
        Some(found) => found,
        None => {
            return None;
        },
    };
    if after_sections >= input.len() {
        return None;
    }
    assert(s[after_sections - pos] == input@[after_sections as int]);
    if input[after_sections] != '}' {
        return None;
    }
    Some((Chapter { chapter_number, sections }, after_sections + 1))
}

/// Reads the array of the chapters of a book at a position.
pub fn read_chapters(input: &Vec<char>, pos: usize) -> (found: Option<(Vec<Chapter>, usize)>)
    requires
        pos <= input@.len(),
    ensures
        match found {
            Some((chapters, end)) => pos <= end <= input@.len() && parse_chapters(
                input@.skip(pos as int),
            ) == Some((chapters_view(chapters@), end - pos)),
            None => parse_chapters(input@.skip(pos as int)) is None,
        },
{
    let ghost s = input@.skip(pos as int);
    let ghost item = |t: Seq<char>| parse_chapter(t);
    proof {
        lemma_array_start(s, item);
    }
    if input.len() - pos < 2 {
        return None;
    }
    assert(s[0] == input@[pos as int] && s[1] == input@[pos + 1]);
    if input[pos] != '[' {
        return None;
    }
    let mut chapters: Vec<Chapter> = Vec::new();
    if input[pos + 1] == ']' {
        assert(chapters_view(chapters@) =~= Seq::empty());
        return Some((chapters, pos + 2));
    }
    let mut cur: usize = pos + 1;
    assert(s.skip(1) =~= input@.skip(pos + 1));
    match read_chapter(input, pos + 1) {
        None => {
            return None;
        },
        Some((first, end)) => {
            proof {
                assert(s.skip(1 + (end - (pos + 1))) =~= input@.skip(end as int));
                assert(chapters_view(chapters@.push(first)) =~= seq![first@]);
            }
            chapters.push(first);
            cur = end;
        },
    }
    loop
        invariant
            pos < cur <= input@.len(),
            s == input@.skip(pos as int),
            item == |t: Seq<char>| parse_chapter(t),
            parse_array(s, item) == items_so_far(
                chapters_view(chapters@),
                cur - pos,
                parse_more_items(input@.skip(cur as int), item),
            ),
        decreases input@.len() - cur,
    {
        let ghost here = input@.skip(cur as int);
        proof {
            lemma_more_items_step(here, item);
        }
        if cur >= input.len() {
            return None;
        }
        assert(here[0] == input@[cur as int]);
        if input[cur] == ']' {
            assert(chapters_view(chapters@) + Seq::empty() =~= chapters_view(chapters@));
            return Some((chapters, cur + 1));
        }
        if input[cur] != ',' {
            return None;
        }
        assert(here.skip(1) =~= input@.skip(cur + 1));
        match read_chapter(input, cur + 1) {
            None => {
                return None;
            },
            Some((next, end)) => {
                proof {
                    assert(here.skip(1 + (end - (cur + 1))) =~= input@.skip(end as int));
                    lemma_items_so_far_push(
                        chapters_view(chapters@),
                        cur - pos,
                        next@,
                        1 + (end - (cur + 1)),
                        parse_more_items(input@.skip(end as int), item),
                    );
                    assert(chapters_view(chapters@.push(next)) =~= chapters_view(chapters@).push(
                        next@,
                    ));
                }
                chapters.push(next);
                cur = end;
            },
        }
    }
}

/// Reads the object of a book at a position.
pub fn read_book(input: &Vec<char>, pos: usize) -> (found: Option<(Book, usize)>)
    requires
        pos <= input@.len(),
    ensures
        match found {
            Some((book, end)) => pos <= end <= input@.len() && parse_book(
                input@.skip(pos as int),
            ) == Some((book@, end - pos)),
            None => parse_book(input@.skip(pos as int)) is None,
        },
{
    proof {
        reveal(parse_book);
    }
    let ghost s = input@.skip(pos as int);
    let after_key = match read_literal(input, pos, BOOK_NAME_KEY) {
        Some(end) => end,
        None => {
            return None;
        },
    };
    assert(s.skip(after_key - pos) =~= input@.skip(after_key as int));
    let (name, after_name) = match read_string(input, after_key) {
        Some(found) => found,
        None => {
            return None;
        },
    };
    assert(s.skip(after_name - pos) =~= input@.skip(after_name as int));
    let after_testament_key = match read_literal(input, after_name, BOOK_TESTAMENT_KEY) {
        Some(end) => end,
        None => {
            return None;
        },
    };
    assert(s.skip(after_testament_key - pos) =~= input@.skip(after_testament_key as int));
    let (testament, after_testament) = match read_testament(input, after_testament_key) {
        Some(found) => found,
        None => {
            return None;
        },
    };
    assert(s.skip(after_testament - pos) =~= input@.skip(after_testament as int));
    let after_chapters_key = match read_literal(input, after_testament, BOOK_CHAPTERS_KEY) {
        Some(end) => end,
        None => {
            return None;
        },
    };
    assert(s.skip(after_chapters_key - pos) =~= input@.skip(after_chapters_key as int));
    let (chapters, after_chapters) = match read_chapters(input, after_chapters_key) {
        Some(found) => found,
        None => {
            return None;
        },
    };
    if after_chapters >= input.len() {
        return None;
    }
    assert(s[after_chapters - pos] == input@[after_chapters as int]);
    if input[after_chapters] != '}' {
        return None;
    }
    Some((Book { name, testament, chapters }, after_chapters + 1))
}

/// Reads the array of the books of a catalog at a position.
pub fn read_books(input: &Vec<char>, pos: usize) -> (found: Option<(Vec<Book>, usize)>)
    requires
        pos <= input@.len(),
    ensures
        match found {
            Some((books, end)) => pos <= end <= input@.len() && parse_books(
                input@.skip(pos as int),
            ) == Some((catalog_view(books@), end - pos)),
            None => parse_books(input@.skip(pos as int)) is None,
        },
{
    let ghost s = input@.skip(pos as int);
    let ghost item = |t: Seq<char>| parse_book(t);
    proof {
        lemma_array_start(s, item);
    }
    if input.len() - pos < 2 {
        return None;
    }
    assert(s[0] == input@[pos as int] && s[1] == input@[pos + 1]);
    if input[pos] != '[' {
        return None;
    }
    let mut books: Vec<Book> = Vec::new();
    if input[pos + 1] == ']' {
        assert(catalog_view(books@) =~= Seq::empty());
        return Some((books, pos + 2));
    }
    let mut cur: usize = pos + 1;
    assert(s.skip(1) =~= input@.skip(pos + 1));
    match read_book(input, pos + 1) {
        None => {
            return None;
        },
        Some((first, end)) => {
            proof {
                assert(s.skip(1 + (end - (pos + 1))) =~= input@.skip(end as int));
                assert(catalog_view(books@.push(first)) =~= seq![first@]);
            }
            books.push(first);
            cur = end;
        },
    }
    loop
        invariant
            pos < cur <= input@.len(),
            s == input@.skip(pos as int),
            item == |t: Seq<char>| parse_book(t),
            parse_array(s, item) == items_so_far(
                catalog_view(books@),
                cur - pos,
                parse_more_items(input@.skip(cur as int), item),
            ),
        decreases input@.len() - cur,
    {
        let ghost here = input@.skip(cur as int);
        proof {
            lemma_more_items_step(here, item);
        }
        if cur >= input.len() {
            return None;
        }
        assert(here[0] == input@[cur as int]);
        if input[cur] == ']' {
            assert(catalog_view(books@) + Seq::empty() =~= catalog_view(books@));
            return Some((books, cur + 1));
        }
        if input[cur] != ',' {
            return None;
        }
        assert(here.skip(1) =~= input@.skip(cur + 1));
        match read_book(input, cur + 1) {
            None => {
                return None;
            },
            Some((next, end)) => {
                proof {
                    assert(here.skip(1 + (end - (cur + 1))) =~= input@.skip(end as int));
                    lemma_items_so_far_push(
                        catalog_view(books@),
                        cur - pos,
                        next@,
                        1 + (end - (cur + 1)),
                        parse_more_items(input@.skip(end as int), item),
                    );
                    assert(catalog_view(books@.push(next)) =~= catalog_view(books@).push(
                        next@,
                    ));
                }
                books.push(next);
                cur = end;
            },
        }
    }
}

/// Reads a document: the catalog whose document the text is.
///
/// A text is accepted exactly where it is the document of a catalog as
/// [`crate::json::to_json`] writes it, and that catalog is returned, equal
/// field for field and in the same order. Any other text, such as a document
/// with white space between its tokens, is refused.
pub fn from_json(text: &str) -> (found: Option<Vec<Book>>)
    ensures
        found matches Some(books) ==> text@ == catalog_json(catalog_view(books@)),
        forall|catalog: Seq<BookView>|
            text@ == #[trigger] catalog_json(catalog) ==> found is Some && catalog_view(
                found->0@,
            ) == catalog,
        match found {
            Some(books) => parse_document(text@) == Some(catalog_view(books@)),
            None => parse_document(text@) is None,
        },
{
    let input = chars_of(text);
    assert(input@.skip(0) =~= text@);
    proof {
        assert forall|catalog: Seq<BookView>| text@ == #[trigger] catalog_json(
            catalog,
        ) implies parse_document(text@) == Some(catalog) by {
            lemma_json_round_trip(catalog);
        }
        if parse_document(text@) is Some {
            lemma_json_canonical(text@, parse_document(text@)->0);
        }
    }
    match read_books(&input, 0) {
        Some((books, end)) => {
            if end == input.len() {
                Some(books)
            } else {
                None
            }
        },
        None => None,
    }
}

/// Reading what was written gives the catalog back: whatever [`from_json`]
/// returns for the text that [`to_json`] returned for some books is a
/// catalog equal to those books, field for field and in the same order.
pub proof fn lemma_from_json_reads_to_json(
    books: &[Book],
    written: String,
    text: &str,
    found: Option<Vec<Book>>,
)
    requires
        call_ensures(to_json, (books,), written),
        text@ == written@,
        call_ensures(from_json, (text,), found),
    ensures
        found is Some,
        catalog_view(found->0@) == catalog_view(books@),
{
    lemma_json_round_trip(catalog_view(books@));
}

} // verus!
