use bible_headlines::catalog::get_bible_data;
use bible_headlines::html::{
    book_slug, class_of, generate_html, push_book, push_book_card_open, push_chapter_card,
    push_search_entry, push_section, search_index,
};
use bible_headlines::model::{Book, Chapter, SectionHeading, Testament};
use bible_headlines::template::{PAGE_HEAD, PAGE_TAIL};
use bible_headlines::text::{digit, push_decimal};

fn chapter(number: u32, headings: &[&str]) -> Chapter {
    Chapter {
        chapter_number: number,
        sections: headings.iter().map(|h| SectionHeading { heading: h.to_string() }).collect(),
    }
}

fn book(name: &str, testament: Testament, chapters: Vec<Chapter>) -> Book {
    Book { name: name.to_string(), testament, chapters }
}

fn small_catalog() -> Vec<Book> {
    vec![
        book("1 Samuel", Testament::Old, vec![chapter(7, &["Foo Bar", "Baz"])]),
        book(
            "Jude",
            Testament::New,
            vec![chapter(1, &["Greeting"]), chapter(139, &["A \"quoted\" \\ Heading"])],
        ),
    ]
}

fn fingerprint(text: &str) -> u64 {
    let mut hash: u64 = 0xcbf29ce484222325;
    for byte in text.bytes() {
        hash ^= byte as u64;
        hash = hash.wrapping_mul(0x100000001b3);
    }
    hash
}

#[test]
fn search_index_is_lowercase_with_a_space_after_each_heading() {
    let index = search_index(&chapter(1, &["Foo Bar", "Baz"]));
    assert_eq!(index, "foo bar baz ");
}

#[test]
fn search_index_of_one_heading_ends_in_a_space() {
    assert_eq!(search_index(&chapter(3, &["The Fall"])), "the fall ");
}

#[test]
fn search_index_of_a_chapter_without_sections_is_empty() {
    assert_eq!(search_index(&chapter(3, &[])), "");
}

#[test]
fn search_index_lowers_letters_beyond_ascii() {
    let index = search_index(&chapter(1, &["(1:2\u{201a}\u{c4}\u{ec}6a)", "\u{c9}T\u{c9}"]));
    assert_eq!(index, "(1:2\u{201a}\u{e4}\u{ec}6a) \u{e9}t\u{e9} ");
}

#[test]
fn search_entry_is_appended_with_its_separator() {
    let mut index = String::from("the fall ");
    push_search_entry(&mut index, "cain and abel");
    assert_eq!(index, "the fall cain and abel ");
    push_search_entry(&mut index, "");
    assert_eq!(index, "the fall cain and abel  ");
}

#[test]
fn slug_is_the_name_in_lowercase() {
    let samuel = book("1 Samuel", Testament::Old, vec![]);
    assert_eq!(book_slug(&samuel), "1 samuel");
    let song = book("Song of Solomon", Testament::Old, vec![]);
    assert_eq!(book_slug(&song), "song of solomon");
}

#[test]
fn class_follows_the_testament() {
    assert_eq!(class_of(Testament::Old), "old-testament");
    assert_eq!(class_of(Testament::New), "new-testament");
}

#[test]
fn digits_are_written_as_characters() {
    let all: String = (0..10).map(digit).collect();
    assert_eq!(all, "0123456789");
}

#[test]
fn numbers_are_written_in_decimal() {
    let cases: [(u32, &str); 8] = [
        (0, "0"),
        (7, "7"),
        (10, "10"),
        (139, "139"),
        (1000, "1000"),
        (90210, "90210"),
        (4294967295, "4294967295"),
        (100000, "100000"),
    ];
    for (n, expected) in cases {
        let mut out = String::from("#");
        push_decimal(&mut out, n);
        assert_eq!(out, format!("#{}", expected));
    }
}

#[test]
fn section_markup_keeps_the_heading_as_written() {
    let mut out = String::from("<!---->");
    push_section(&mut out, &SectionHeading { heading: "The Fall".to_string() });
    assert_eq!(
        out,
        concat_lines(&[
            "<!---->\n",
            "                        <div class=\"section-heading\">\n",
            "                            <span class=\"bullet\">\u{201a}\u{c4}\u{a2}</span>\n",
            "                            <span class=\"heading-text\">The Fall</span>\n",
            "                        </div>\n",
            "                ",
        ])
    );
}

fn concat_lines(lines: &[&str]) -> String {
    lines.concat()
}

#[test]
fn chapter_card_carries_the_search_text_it_is_given() {
    let mut out = String::new();
    push_chapter_card(&mut out, &chapter(23, &["The Lord Is My Shepherd"]), "given text ");
    assert_eq!(
        out,
        concat_lines(&[
            "\n",
            "                <div class=\"chapter-card\" data-search-text=\"given text \">\n",
            "                    <div class=\"chapter-header\">\n",
            "                        <span class=\"chapter-number\">Chapter 23</span>\n",
            "                    </div>\n",
            "                    <div class=\"sections\">\n",
            "            \n",
            "                        <div class=\"section-heading\">\n",
            "                            <span class=\"bullet\">\u{201a}\u{c4}\u{a2}</span>\n",
            "                            <span class=\"heading-text\">The Lord Is My Shepherd</span>\n",
            "                        </div>\n",
            "                \n",
            "                    </div>\n",
            "                </div>\n",
            "            ",
        ])
    );
}

#[test]
fn book_card_opens_with_the_slug_it_is_given() {
    let mut out = String::new();
    push_book_card_open(&mut out, &book("2 Kings", Testament::Old, vec![]), "given-slug");
    assert_eq!(
        out,
        concat_lines(&[
            "\n",
            "            <div class=\"book-card old-testament\" data-book-name=\"given-slug\" data-testament=\"old-testament\">\n",
            "                <div class=\"book-header\" onclick=\"toggleBook(this)\">\n",
            "                    <h2 class=\"book-title\">2 Kings</h2>\n",
            "                    <span class=\"expand-icon\">\u{201a}\u{f1}\u{ba}</span>\n",
            "                </div>\n",
            "                <div class=\"chapters-grid\">\n",
            "        ",
        ])
    );
}

#[test]
fn book_without_chapters_is_an_empty_card() {
    let mut out = String::new();
    push_book(&mut out, &book("Acts", Testament::New, vec![]));
    assert_eq!(
        out,
        concat_lines(&[
            "\n",
            "            <div class=\"book-card new-testament\" data-book-name=\"acts\" data-testament=\"new-testament\">\n",
            "                <div class=\"book-header\" onclick=\"toggleBook(this)\">\n",
            "                    <h2 class=\"book-title\">Acts</h2>\n",
            "                    <span class=\"expand-icon\">\u{201a}\u{f1}\u{ba}</span>\n",
            "                </div>\n",
            "                <div class=\"chapters-grid\">\n",
            "        \n",
            "                </div>\n",
            "            </div>\n",
            "        ",
        ])
    );
}

#[test]
fn page_of_a_small_catalog() {
    let html = generate_html(&small_catalog());
    let expected = concat_lines(&[
        "\n",
        "            <div class=\"book-card old-testament\" data-book-name=\"1 samuel\" data-testament=\"old-testament\">\n",
        "                <div class=\"book-header\" onclick=\"toggleBook(this)\">\n",
        "                    <h2 class=\"book-title\">1 Samuel</h2>\n",
        "                    <span class=\"expand-icon\">\u{201a}\u{f1}\u{ba}</span>\n",
        "                </div>\n",
        "                <div class=\"chapters-grid\">\n",
        "        \n",
        "                <div class=\"chapter-card\" data-search-text=\"foo bar baz \">\n",
        "                    <div class=\"chapter-header\">\n",
        "                        <span class=\"chapter-number\">Chapter 7</span>\n",
        "                    </div>\n",
        "                    <div class=\"sections\">\n",
        "            \n",
        "                        <div class=\"section-heading\">\n",
        "                            <span class=\"bullet\">\u{201a}\u{c4}\u{a2}</span>\n",
        "                            <span class=\"heading-text\">Foo Bar</span>\n",
        "                        </div>\n",
        "                \n",
        "                        <div class=\"section-heading\">\n",
        "                            <span class=\"bullet\">\u{201a}\u{c4}\u{a2}</span>\n",
        "                            <span class=\"heading-text\">Baz</span>\n",
        "                        </div>\n",
        "                \n",
        "                    </div>\n",
        "                </div>\n",
        "            \n",
        "                </div>\n",
        "            </div>\n",
        "        \n",
        "            <div class=\"book-card new-testament\" data-book-name=\"jude\" data-testament=\"new-testament\">\n",
        "                <div class=\"book-header\" onclick=\"toggleBook(this)\">\n",
        "                    <h2 class=\"book-title\">Jude</h2>\n",
        "                    <span class=\"expand-icon\">\u{201a}\u{f1}\u{ba}</span>\n",
        "                </div>\n",
        "                <div class=\"chapters-grid\">\n",
        "        \n",
        "                <div class=\"chapter-card\" data-search-text=\"greeting \">\n",
        "                    <div class=\"chapter-header\">\n",
        "                        <span class=\"chapter-number\">Chapter 1</span>\n",
        "                    </div>\n",
        "                    <div class=\"sections\">\n",
        "            \n",
        "                        <div class=\"section-heading\">\n",
        "                            <span class=\"bullet\">\u{201a}\u{c4}\u{a2}</span>\n",
        "                            <span class=\"heading-text\">Greeting</span>\n",
        "                        </div>\n",
        "                \n",
        "                    </div>\n",
        "                </div>\n",
        "            \n",
        "                <div class=\"chapter-card\" data-search-text=\"a \"quoted\" \\ heading \">\n",
        "                    <div class=\"chapter-header\">\n",
        "                        <span class=\"chapter-number\">Chapter 139</span>\n",
        "                    </div>\n",
        "                    <div class=\"sections\">\n",
        "            \n",
        "                        <div class=\"section-heading\">\n",
        "                            <span class=\"bullet\">\u{201a}\u{c4}\u{a2}</span>\n",
        "                            <span class=\"heading-text\">A \"quoted\" \\ Heading</span>\n",
        "                        </div>\n",
        "                \n",
        "                    </div>\n",
        "                </div>\n",
        "            \n",
        "                </div>\n",
        "            </div>\n",
        "        "
    ]);
    assert!(html.starts_with(PAGE_HEAD));
    assert!(html.ends_with(PAGE_TAIL));
    assert_eq!(&html[PAGE_HEAD.len()..html.len() - PAGE_TAIL.len()], expected);
}

#[test]
fn page_of_an_empty_catalog_is_head_and_tail() {
    let html = generate_html(&[]);
    assert_eq!(html, format!("{}{}", PAGE_HEAD, PAGE_TAIL));
}

#[test]
fn fixed_text_of_the_page() {
    assert_eq!(PAGE_HEAD.len(), 10040);
    assert_eq!(fingerprint(PAGE_HEAD), 0xef3a0150019f1ae5);
    assert_eq!(PAGE_TAIL.len(), 4786);
    assert_eq!(fingerprint(PAGE_TAIL), 0x17356664709ff122);
    assert!(PAGE_HEAD.starts_with("<!DOCTYPE html>\n<html lang=\"en\">\n<head>\n"));
    assert!(PAGE_HEAD.contains("<title>Bible Section Headlines</title>"));
    assert!(PAGE_HEAD.contains("        * {\n            margin: 0;"));
    assert!(PAGE_HEAD.ends_with("<div class=\"books-container\" id=\"booksContainer\">\n            "));
    assert!(PAGE_TAIL.starts_with("\n        </div>\n"));
    assert!(PAGE_TAIL.contains("function toggleBook(header) {\n"));
    assert!(PAGE_TAIL.contains("bookCard.getAttribute('data-book-name')"));
    assert!(PAGE_TAIL.contains("bookCard.getAttribute('data-testament')"));
    assert!(PAGE_TAIL.contains("chapter.getAttribute('data-search-text')"));
    assert!(PAGE_TAIL.contains("new RegExp(`(${searchTerm.replace(/[.*+?^${}()|[\\]\\\\]/g, '\\\\$&')})`, 'gi')"));
    assert!(PAGE_TAIL.ends_with("    </script>\n</body>\n</html>"));
}

#[test]
fn page_of_the_catalog() {
    let html = generate_html(&get_bible_data());
    assert_eq!(html.len(), 600924);
    assert_eq!(fingerprint(&html), 0x9deed1cd09792c1e);
    assert_eq!(html.matches("<div class=\"book-card ").count(), 66);
    assert_eq!(html.matches("<div class=\"book-card old-testament\"").count(), 39);
    assert_eq!(html.matches("<div class=\"book-card new-testament\"").count(), 27);
    assert_eq!(html.matches("<div class=\"chapter-card\" data-search-text=\"").count(), 892);
    assert!(html.contains("data-book-name=\"1 samuel\" data-testament=\"old-testament\""));
    assert!(html.contains("<h2 class=\"book-title\">1 Samuel</h2>"));
    assert!(html.contains("data-search-text=\"the seventh day, god rests the creation of man and woman \""));
    assert!(html.contains("<span class=\"heading-text\">The Seventh Day, God Rests</span>"));
    assert!(html.contains("<span class=\"chapter-number\">Chapter 139</span>"));
}

#[test]
fn cards_stand_in_the_order_of_the_catalog() {
    let books = get_bible_data();
    let html = generate_html(&books);
    let mut from = 0;
    for book in &books {
        let title = format!("<h2 class=\"book-title\">{}</h2>", book.name);
        let at = html[from..].find(&title).expect("title in order");
        from += at + title.len();
    }
}
