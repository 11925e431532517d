use bible_headlines::catalog::get_bible_data;
use bible_headlines::json::{
    hex_digit, push_escaped_char, push_json_string, testament_value, to_json,
};
use bible_headlines::model::{Book, Chapter, SectionHeading, Testament};
use serde_json::Value;

fn json_chapter(number: u32, headings: &[&str]) -> Chapter {
    Chapter {
        chapter_number: number,
        sections: headings.iter().map(|h| SectionHeading { heading: h.to_string() }).collect(),
    }
}

fn json_book(name: &str, testament: Testament, chapters: Vec<Chapter>) -> Book {
    Book { name: name.to_string(), testament, chapters }
}

fn json_fingerprint(text: &str) -> u64 {
    let mut hash: u64 = 0xcbf29ce484222325;
    for byte in text.bytes() {
        hash ^= byte as u64;
        hash = hash.wrapping_mul(0x100000001b3);
    }
    hash
}

/// Rebuilds a catalog from a parsed document, field by field.
fn catalog_from(value: &Value) -> Vec<Book> {
    let mut books = Vec::new();
    for b in value.as_array().unwrap() {
        let b = b.as_object().unwrap();
        assert_eq!(b.len(), 3);
        let testament = match b["testament"].as_str().unwrap() {
            "Old" => Testament::Old,
            "New" => Testament::New,
            other => panic!("unknown testament {}", other),
        };
        let mut chapters = Vec::new();
        for c in b["chapters"].as_array().unwrap() {
            let c = c.as_object().unwrap();
            assert_eq!(c.len(), 2);
            let mut sections = Vec::new();
            for s in c["sections"].as_array().unwrap() {
                let s = s.as_object().unwrap();
                assert_eq!(s.len(), 1);
                sections.push(SectionHeading { heading: s["heading"].as_str().unwrap().to_string() });
            }
            chapters.push(Chapter {
                chapter_number: c["chapter_number"].as_u64().unwrap() as u32,
                sections,
            });
        }
        books.push(Book { name: b["name"].as_str().unwrap().to_string(), testament, chapters });
    }
    books
}

#[test]
fn document_of_a_small_catalog() {
    let books = vec![
        json_book("1 Samuel", Testament::Old, vec![json_chapter(7, &["Foo Bar", "Baz"])]),
        json_book(
            "Jude",
            Testament::New,
            vec![json_chapter(1, &["Greeting"]), json_chapter(139, &["A \"quoted\" \\ Heading"])],
        ),
    ];
    assert_eq!(
        to_json(&books),
        "[{\"name\":\"1 Samuel\",\"testament\":\"Old\",\"chapters\":[{\"chapter_number\":7,\"sections\":[{\"heading\":\"Foo Bar\"},{\"heading\":\"Baz\"}]}]},{\"name\":\"Jude\",\"testament\":\"New\",\"chapters\":[{\"chapter_number\":1,\"sections\":[{\"heading\":\"Greeting\"}]},{\"chapter_number\":139,\"sections\":[{\"heading\":\"A \\\"quoted\\\" \\\\ Heading\"}]}]}]"
    );
}

#[test]
fn document_of_an_empty_catalog() {
    assert_eq!(to_json(&[]), "[]");
}

#[test]
fn empty_lists_are_written_as_empty_arrays() {
    let books = vec![
        json_book("Empty", Testament::New, vec![]),
        json_book("Bare", Testament::Old, vec![json_chapter(2, &[])]),
    ];
    assert_eq!(
        to_json(&books),
        "[{\"name\":\"Empty\",\"testament\":\"New\",\"chapters\":[]},{\"name\":\"Bare\",\"testament\":\"Old\",\"chapters\":[{\"chapter_number\":2,\"sections\":[]}]}]"
    );
}

#[test]
fn testament_is_written_as_its_name() {
    assert_eq!(testament_value(Testament::Old), "\"Old\"");
    assert_eq!(testament_value(Testament::New), "\"New\"");
}

#[test]
fn hexadecimal_digits_are_lowercase() {
    let all: String = (0..16).map(hex_digit).collect();
    assert_eq!(all, "0123456789abcdef");
}

#[test]
fn characters_are_escaped_as_json_asks() {
    let cases: [(char, &str); 14] = [
        ('"', "\\\""),
        ('\\', "\\\\"),
        ('\u{08}', "\\b"),
        ('\u{0c}', "\\f"),
        ('\n', "\\n"),
        ('\r', "\\r"),
        ('\t', "\\t"),
        ('\u{00}', "\\u0000"),
        ('\u{0b}', "\\u000b"),
        ('\u{1f}', "\\u001f"),
        (' ', " "),
        ('/', "/"),
        ('\u{7f}', "\u{7f}"),
        ('\u{c4}', "\u{c4}"),
    ];
    for (c, expected) in cases {
        let mut out = String::from("x");
        push_escaped_char(&mut out, c);
        assert_eq!(out, format!("x{}", expected), "{:?}", c);
    }
}

#[test]
fn every_character_is_escaped_as_serde_json_escapes_it() {
    for code in 0u32..0x3000 {
        let c = char::from_u32(code).unwrap();
        let text = format!("a{}b", c);
        let mut out = String::new();
        push_json_string(&mut out, &text);
        assert_eq!(out, serde_json::to_string(&text).unwrap(), "U+{:04X}", code);
    }
    for c in ['\u{d7ff}', '\u{e000}', '\u{f8ff}', '\u{ffff}', '\u{10000}', '\u{1f50d}', '\u{10ffff}'] {
        let text = c.to_string();
        let mut out = String::new();
        push_json_string(&mut out, &text);
        assert_eq!(out, serde_json::to_string(&text).unwrap());
    }
}

#[test]
fn strings_are_written_between_quotes() {
    let mut out = String::from("k:");
    push_json_string(&mut out, "");
    assert_eq!(out, "k:\"\"");
    push_json_string(&mut out, "tab\there");
    assert_eq!(out, "k:\"\"\"tab\\there\"");
}

#[test]
fn document_of_the_catalog() {
    let text = to_json(&get_bible_data());
    assert_eq!(text.len(), 74210);
    assert_eq!(json_fingerprint(&text), 0x83ea23703870adf);
    assert!(text.starts_with(
        "[{\"name\":\"Genesis\",\"testament\":\"Old\",\"chapters\":[{\"chapter_number\":1,\"sections\":[{\"heading\":\"The Creation of the World\"}]},"
    ));
}

#[test]
fn api_books_scenario() {
    let text = to_json(&get_bible_data());
    let value: Value = serde_json::from_str(&text).unwrap();
    let books = value.as_array().unwrap();
    assert_eq!(books.len(), 66);
    assert_eq!(books[0]["name"], "Genesis");
    assert_eq!(books[0]["testament"], "Old");
    let genesis = books.iter().find(|b| b["name"] == "Genesis").unwrap();
    let third: Vec<&Value> = genesis["chapters"]
        .as_array()
        .unwrap()
        .iter()
        .filter(|c| c["chapter_number"] == 3)
        .collect();
    assert_eq!(third.len(), 1);
    let sections = third[0]["sections"].as_array().unwrap();
    assert_eq!(sections.len(), 1);
    assert_eq!(sections[0]["heading"], "The Fall");
}

#[test]
fn members_stand_in_the_order_of_the_fields() {
    let text = to_json(&[json_book("Ruth", Testament::Old, vec![json_chapter(1, &["x"])])]);
    let name = text.find("\"name\"").unwrap();
    let testament = text.find("\"testament\"").unwrap();
    let chapters = text.find("\"chapters\"").unwrap();
    let number = text.find("\"chapter_number\"").unwrap();
    let sections = text.find("\"sections\"").unwrap();
    let heading = text.find("\"heading\"").unwrap();
    assert!(name < testament && testament < chapters && chapters < number);
    assert!(number < sections && sections < heading);
}

#[test]
fn document_read_by_serde_json_gives_the_catalog_back() {
    let books = get_bible_data();
    let value: Value = serde_json::from_str(&to_json(&books)).unwrap();
    assert_eq!(catalog_from(&value), books);
}

#[test]
fn document_with_escapes_read_by_serde_json_gives_the_catalog_back() {
    let books = vec![json_book(
        "Quote \" and \\ slash",
        Testament::New,
        vec![
            json_chapter(4294967295, &["line\nbreak", "\u{0}\u{1}\u{1f}", "\u{201a}\u{c4}\u{ec}", ""]),
            json_chapter(0, &[]),
        ],
    )];
    let value: Value = serde_json::from_str(&to_json(&books)).unwrap();
    assert_eq!(catalog_from(&value), books);
}
