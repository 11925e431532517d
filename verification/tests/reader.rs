use bible_headlines::catalog::get_bible_data;
use bible_headlines::json::to_json;
use bible_headlines::model::{Book, Chapter, SectionHeading, Testament};
use bible_headlines::reader::{
    chars_of, digit_of, from_json, hex_of, read_book, read_books, read_chapter, read_chapters,
    read_literal, read_number, read_section, read_sections, read_string, read_testament,
    short_escape_of,
};

fn read_back_chapter(number: u32, headings: &[&str]) -> Chapter {
    Chapter {
        chapter_number: number,
        sections: headings.iter().map(|h| SectionHeading { heading: h.to_string() }).collect(),
    }
}

fn read_back_book(name: &str, testament: Testament, chapters: Vec<Chapter>) -> Book {
    Book { name: name.to_string(), testament, chapters }
}

fn chars(text: &str) -> Vec<char> {
    text.chars().collect()
}

#[test]
fn reading_the_document_of_the_catalog_gives_the_catalog_back() {
    let books = get_bible_data();
    assert_eq!(from_json(&to_json(&books)), Some(books));
}

#[test]
fn reading_a_document_with_escapes_gives_the_catalog_back() {
    let books = vec![
        read_back_book(
            "Quote \" and \\ slash",
            Testament::New,
            vec![
                read_back_chapter(
                    4294967295,
                    &["line\nbreak\r\t\u{8}\u{c}", "\u{0}\u{1}\u{b}\u{1f}", "\u{201a}\u{c4}\u{ec}", ""],
                ),
                read_back_chapter(0, &[]),
            ],
        ),
        read_back_book("", Testament::Old, vec![]),
    ];
    let text = to_json(&books);
    assert_eq!(from_json(&text), Some(books));
}

#[test]
fn reading_and_writing_again_gives_the_same_document() {
    let text = to_json(&get_bible_data());
    let books = from_json(&text).unwrap();
    assert_eq!(to_json(&books), text);
}

#[test]
fn empty_document_is_the_empty_catalog() {
    assert_eq!(from_json("[]"), Some(vec![]));
}

#[test]
fn small_document_is_read() {
    let text = "[{\"name\":\"Ruth\",\"testament\":\"Old\",\"chapters\":[{\"chapter_number\":1,\"sections\":[{\"heading\":\"a\\\"b\"},{\"heading\":\"c\\u0001\"}]},{\"chapter_number\":20,\"sections\":[]}]}]";
    let expected = vec![read_back_book(
        "Ruth",
        Testament::Old,
        vec![read_back_chapter(1, &["a\"b", "c\u{1}"]), read_back_chapter(20, &[])],
    )];
    assert_eq!(from_json(text), Some(expected));
}

#[test]
fn other_spellings_of_a_document_are_refused() {
    let refused = [
        "",
        "[",
        "]",
        "[]]",
        "[] ",
        " []",
        "[ ]",
        "[,]",
        "{}",
        "null",
        "[{\"name\":\"Ruth\",\"testament\":\"Old\",\"chapters\":[]},]",
        "[{\"name\":\"Ruth\",\"testament\":\"Old\",\"chapters\":[]}",
        "[{\"name\":\"Ruth\", \"testament\":\"Old\",\"chapters\":[]}]",
        "[{\"testament\":\"Old\",\"name\":\"Ruth\",\"chapters\":[]}]",
        "[{\"name\":\"Ruth\",\"testament\":\"Old\"}]",
        "[{\"name\":\"Ruth\",\"testament\":\"old\",\"chapters\":[]}]",
        "[{\"name\":\"Ruth\",\"testament\":\"Middle\",\"chapters\":[]}]",
        "[{\"name\":\"Ruth\",\"testament\":\"Old\",\"chapters\":[],\"extra\":1}]",
        "[{\"name\":Ruth,\"testament\":\"Old\",\"chapters\":[]}]",
        "[{\"name\":\"Ruth,\"testament\":\"Old\",\"chapters\":[]}]",
        "[{\"name\":\"Ru\nth\",\"testament\":\"Old\",\"chapters\":[]}]",
        "[{\"name\":\"Ru\\u0041th\",\"testament\":\"Old\",\"chapters\":[]}]",
        "[{\"name\":\"Ru\\u000ath\",\"testament\":\"Old\",\"chapters\":[]}]",
        "[{\"name\":\"Ru\\u001Fth\",\"testament\":\"Old\",\"chapters\":[]}]",
        "[{\"name\":\"Ru\\/th\",\"testament\":\"Old\",\"chapters\":[]}]",
        "[{\"name\":\"Ru\\xth\",\"testament\":\"Old\",\"chapters\":[]}]",
        "[{\"name\":\"Ruth\",\"testament\":\"Old\",\"chapters\":[{\"chapter_number\":01,\"sections\":[]}]}]",
        "[{\"name\":\"Ruth\",\"testament\":\"Old\",\"chapters\":[{\"chapter_number\":,\"sections\":[]}]}]",
        "[{\"name\":\"Ruth\",\"testament\":\"Old\",\"chapters\":[{\"chapter_number\":-1,\"sections\":[]}]}]",
        "[{\"name\":\"Ruth\",\"testament\":\"Old\",\"chapters\":[{\"chapter_number\":1.0,\"sections\":[]}]}]",
        "[{\"name\":\"Ruth\",\"testament\":\"Old\",\"chapters\":[{\"chapter_number\":4294967296,\"sections\":[]}]}]",
        "[{\"name\":\"Ruth\",\"testament\":\"Old\",\"chapters\":[{\"chapter_number\":99999999999999999999999999,\"sections\":[]}]}]",
        "[{\"name\":\"Ruth\",\"testament\":\"Old\",\"chapters\":[{\"chapter_number\":1,\"sections\":[{\"heading\":\"x\"}{\"heading\":\"y\"}]}]}]",
        "[{\"name\":\"Ruth\",\"testament\":\"Old\",\"chapters\":[{\"sections\":[],\"chapter_number\":1}]}]",
    ];
    for text in refused {
        assert_eq!(from_json(text), None, "{}", text);
    }
}

#[test]
fn largest_chapter_number_is_read() {
    let text = "[{\"name\":\"Ruth\",\"testament\":\"New\",\"chapters\":[{\"chapter_number\":4294967295,\"sections\":[]}]}]";
    let books = from_json(text).unwrap();
    assert_eq!(books[0].testament, Testament::New);
    assert_eq!(books[0].chapters[0].chapter_number, 4294967295);
}

#[test]
fn pretty_printed_document_is_refused() {
    let text = to_json(&get_bible_data());
    let value: serde_json::Value = serde_json::from_str(&text).unwrap();
    let pretty = serde_json::to_string_pretty(&value).unwrap();
    assert_eq!(from_json(&pretty), None);
}

#[test]
fn characters_of_a_text() {
    assert_eq!(chars_of(""), Vec::<char>::new());
    assert_eq!(chars_of("a\u{c4}\u{1f50d}b"), vec!['a', '\u{c4}', '\u{1f50d}', 'b']);
}

#[test]
fn literal_is_read_where_it_stands() {
    let input = chars("xx,\"sections\":yy");
    assert_eq!(read_literal(&input, 2, ",\"sections\":"), Some(14));
    assert_eq!(read_literal(&input, 0, ",\"sections\":"), None);
    assert_eq!(read_literal(&input, 3, ",\"sections\":"), None);
    assert_eq!(read_literal(&input, 14, "yy"), Some(16));
    assert_eq!(read_literal(&input, 14, "yyy"), None);
    assert_eq!(read_literal(&input, 16, ""), Some(16));
    assert_eq!(read_literal(&input, 16, "y"), None);
}

#[test]
fn digits_have_their_values() {
    for (i, c) in "0123456789".chars().enumerate() {
        assert_eq!(digit_of(c), Some(i as u32));
    }
    for c in ['a', 'f', '/', ':', ' ', '\u{663}'] {
        assert_eq!(digit_of(c), None);
    }
    for (i, c) in "0123456789abcdef".chars().enumerate() {
        assert_eq!(hex_of(c), Some(i as u32));
    }
    for c in ['A', 'F', 'g', '/', ':'] {
        assert_eq!(hex_of(c), None);
    }
}

#[test]
fn short_escapes_stand_for_their_characters() {
    let pairs = [('"', '"'), ('\\', '\\'), ('b', '\u{8}'), ('f', '\u{c}'), ('n', '\n'), ('r', '\r'), ('t', '\t')];
    for (after_backslash, meant) in pairs {
        assert_eq!(short_escape_of(after_backslash), Some(meant));
    }
    for c in ['/', 'u', 'x', '0', 'B'] {
        assert_eq!(short_escape_of(c), None);
    }
}

#[test]
fn numbers_are_read_up_to_the_first_other_character() {
    assert_eq!(read_number(&chars("139,"), 0), Some((139, 3)));
    assert_eq!(read_number(&chars("139"), 1), Some((39, 3)));
    assert_eq!(read_number(&chars("0,"), 0), Some((0, 1)));
    assert_eq!(read_number(&chars("0"), 0), Some((0, 1)));
    assert_eq!(read_number(&chars("x7y"), 1), Some((7, 2)));
    assert_eq!(read_number(&chars("4294967295]"), 0), Some((4294967295, 10)));
    assert_eq!(read_number(&chars("4294967296]"), 0), None);
    assert_eq!(read_number(&chars("00"), 0), None);
    assert_eq!(read_number(&chars("007"), 0), None);
    assert_eq!(read_number(&chars(""), 0), None);
    assert_eq!(read_number(&chars(",1"), 0), None);
    assert_eq!(read_number(&chars("12"), 2), None);
}

#[test]
fn strings_are_read_with_their_escapes() {
    assert_eq!(read_string(&chars("\"\""), 0), Some((String::new(), 2)));
    assert_eq!(read_string(&chars("x\"The Fall\"}"), 1), Some(("The Fall".to_string(), 11)));
    assert_eq!(
        read_string(&chars("\"a\\\"b\\\\c\\n\\u0000\\u001f\u{c4}\""), 0),
        Some(("a\"b\\c\n\u{0}\u{1f}\u{c4}".to_string(), 24))
    );
    assert_eq!(read_string(&chars("\"open"), 0), None);
    assert_eq!(read_string(&chars("open\""), 0), None);
    assert_eq!(read_string(&chars("\"a\\"), 0), None);
    assert_eq!(read_string(&chars("\"\\u00\""), 0), None);
    assert_eq!(read_string(&chars("\"\\u0020\""), 0), None);
    assert_eq!(read_string(&chars("\"\\u0009\""), 0), None);
    assert_eq!(read_string(&chars("\"\t\""), 0), None);
    assert_eq!(read_string(&chars(""), 0), None);
}

#[test]
fn testaments_are_read_by_name() {
    assert_eq!(read_testament(&chars("\"Old\","), 0), Some((Testament::Old, 5)));
    assert_eq!(read_testament(&chars(":\"New\","), 1), Some((Testament::New, 6)));
    assert_eq!(read_testament(&chars("\"Old"), 0), None);
    assert_eq!(read_testament(&chars("Old"), 0), None);
    assert_eq!(read_testament(&chars("\"new\""), 0), None);
}

#[test]
fn sections_are_read() {
    let one = chars("{\"heading\":\"The Fall\"},");
    assert_eq!(read_section(&one, 0), Some((SectionHeading { heading: "The Fall".to_string() }, 22)));
    assert_eq!(read_section(&one, 1), None);
    assert_eq!(read_section(&chars("{\"heading\":\"The Fall\""), 0), None);
    assert_eq!(read_section(&chars("{\"heading\":7}"), 0), None);
    let list = chars("[{\"heading\":\"a\"},{\"heading\":\"b\"}]}");
    let expected = vec![
        SectionHeading { heading: "a".to_string() },
        SectionHeading { heading: "b".to_string() },
    ];
    assert_eq!(read_sections(&list, 0), Some((expected, 33)));
    assert_eq!(read_sections(&chars("[]"), 0), Some((vec![], 2)));
    assert_eq!(read_sections(&chars("["), 0), None);
    assert_eq!(read_sections(&chars("[{\"heading\":\"a\"},]"), 0), None);
    assert_eq!(read_sections(&chars("[{\"heading\":\"a\"}"), 0), None);
}

#[test]
fn chapters_are_read() {
    let text = chars("{\"chapter_number\":3,\"sections\":[{\"heading\":\"The Fall\"}]}");
    assert_eq!(read_chapter(&text, 0), Some((read_back_chapter(3, &["The Fall"]), text.len())));
    let list = chars("[{\"chapter_number\":1,\"sections\":[]},{\"chapter_number\":2,\"sections\":[]}]");
    assert_eq!(
        read_chapters(&list, 0),
        Some((vec![read_back_chapter(1, &[]), read_back_chapter(2, &[])], list.len()))
    );
    assert_eq!(read_chapter(&chars("{\"chapter_number\":3 ,\"sections\":[]}"), 0), None);
    assert_eq!(read_chapter(&chars("{\"chapter_number\":3,\"sections\":[]"), 0), None);
}

#[test]
fn books_are_read() {
    let text = chars("{\"name\":\"Jude\",\"testament\":\"New\",\"chapters\":[]}tail");
    assert_eq!(
        read_book(&text, 0),
        Some((read_back_book("Jude", Testament::New, vec![]), text.len() - 4))
    );
    let list = chars("[{\"name\":\"Jude\",\"testament\":\"New\",\"chapters\":[]}]");
    assert_eq!(
        read_books(&list, 0),
        Some((vec![read_back_book("Jude", Testament::New, vec![])], list.len()))
    );
    assert_eq!(read_book(&chars("{\"name\":\"Jude\",\"testament\":\"New\",\"chapters\":[]"), 0), None);
    assert_eq!(read_books(&chars("[{\"name\":\"Jude\",\"testament\":\"New\",\"chapters\":[]}"), 0), None);
}
