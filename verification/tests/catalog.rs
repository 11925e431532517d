use bible_headlines::canon::PLACEHOLDER_HEADING;
use bible_headlines::catalog::{create_placeholder_book, get_bible_data};
use bible_headlines::model::{Book, Testament};

fn names(books: &[Book]) -> Vec<&str> {
    books.iter().map(|b| b.name.as_str()).collect()
}

#[test]
fn catalog_holds_sixty_six_books() {
    let books = get_bible_data();
    assert_eq!(books.len(), 66);
    let old = books.iter().filter(|b| b.testament == Testament::Old).count();
    let new = books.iter().filter(|b| b.testament == Testament::New).count();
    assert_eq!(old, 39);
    assert_eq!(new, 27);
}

#[test]
fn no_list_of_the_catalog_is_empty() {
    for book in get_bible_data() {
        assert!(!book.chapters.is_empty(), "{} has no chapters", book.name);
        for chapter in &book.chapters {
            assert!(chapter.chapter_number >= 1);
            assert!(!chapter.sections.is_empty());
        }
    }
}

#[test]
fn no_name_occurs_twice() {
    let books = get_bible_data();
    let mut seen = names(&books);
    seen.sort();
    seen.dedup();
    assert_eq!(seen.len(), 66);
}

#[test]
fn old_testament_comes_first() {
    let books = get_bible_data();
    for (i, book) in books.iter().enumerate() {
        let expected = if i < 39 { Testament::Old } else { Testament::New };
        assert_eq!(book.testament, expected, "{}", book.name);
    }
    assert_eq!(books[0].name, "Genesis");
    assert_eq!(books[38].name, "Malachi");
    assert_eq!(books[39].name, "Matthew");
    assert_eq!(books[65].name, "Revelation");
}

#[test]
fn books_stand_in_the_order_of_the_canon() {
    let books = get_bible_data();
    let expected = vec![
        "Genesis", "Exodus", "Psalms", "Leviticus", "Numbers", "Deuteronomy", "Joshua", "Judges",
        "Ruth", "1 Samuel", "2 Samuel", "1 Kings", "2 Kings", "1 Chronicles", "2 Chronicles",
        "Ezra", "Nehemiah", "Esther", "Job", "Proverbs", "Ecclesiastes", "Song of Solomon",
        "Isaiah", "Jeremiah", "Lamentations", "Ezekiel", "Daniel", "Hosea", "Joel", "Amos",
        "Obadiah", "Jonah", "Micah", "Nahum", "Habakkuk", "Zephaniah", "Haggai", "Zechariah",
        "Malachi", "Matthew", "Mark", "Luke", "John", "Acts", "Romans", "1 Corinthians",
        "2 Corinthians", "Galatians", "Ephesians", "Philippians", "Colossians",
        "1 Thessalonians", "2 Thessalonians", "1 Timothy", "2 Timothy", "Titus", "Philemon",
        "Hebrews", "James", "1 Peter", "2 Peter", "1 John", "2 John", "3 John", "Jude",
        "Revelation",
    ];
    assert_eq!(names(&books), expected);
}

#[test]
fn genesis_is_curated() {
    let books = get_bible_data();
    let genesis = &books[0];
    assert_eq!(genesis.testament, Testament::Old);
    let numbers: Vec<u32> = genesis.chapters.iter().map(|c| c.chapter_number).collect();
    assert_eq!(numbers, vec![1, 2, 3, 4]);
    assert_eq!(genesis.chapters[1].sections.len(), 2);
    assert_eq!(genesis.chapters[1].sections[0].heading, "The Seventh Day, God Rests");
    assert_eq!(genesis.chapters[1].sections[1].heading, "The Creation of Man and Woman");
    assert_eq!(genesis.chapters[2].sections.len(), 1);
    assert_eq!(genesis.chapters[2].sections[0].heading, "The Fall");
}

#[test]
fn curated_chapters_need_not_be_contiguous() {
    let books = get_bible_data();
    let psalms = books.iter().find(|b| b.name == "Psalms").unwrap();
    let numbers: Vec<u32> = psalms.chapters.iter().map(|c| c.chapter_number).collect();
    assert_eq!(numbers, vec![1, 23, 91, 139]);
    let matthew = books.iter().find(|b| b.name == "Matthew").unwrap();
    let numbers: Vec<u32> = matthew.chapters.iter().map(|c| c.chapter_number).collect();
    assert_eq!(numbers, vec![1, 2, 5, 6, 28]);
    assert_eq!(matthew.chapters[0].sections.len(), 11);
    assert_eq!(
        matthew.chapters[0].sections[1].heading,
        "Abraham to David: Covenant Line through the Patriarchs (1:2\u{201a}\u{c4}\u{ec}6a)"
    );
    let revelation = &books[65];
    assert_eq!(revelation.chapters.len(), 3);
    assert_eq!(revelation.chapters[2].sections[1].heading, "Jesus Is Coming");
}

#[test]
fn placeholder_books_of_the_catalog_list_every_chapter() {
    let books = get_bible_data();
    let counts = [("Leviticus", 27usize), ("Obadiah", 1), ("Isaiah", 66), ("Mark", 16), ("Jude", 1)];
    for (name, count) in counts {
        let book = books.iter().find(|b| b.name == name).unwrap();
        assert_eq!(book.chapters.len(), count, "{}", name);
        for (i, chapter) in book.chapters.iter().enumerate() {
            assert_eq!(chapter.chapter_number as usize, i + 1);
            assert_eq!(chapter.sections.len(), 1);
            assert_eq!(chapter.sections[0].heading, "Section headings to be added");
        }
    }
    let total: usize = books.iter().map(|b| b.chapters.len()).sum();
    assert_eq!(total, 892);
}

#[test]
fn placeholder_book_has_the_declared_chapters() {
    let book = create_placeholder_book("Ruth", Testament::Old, 4);
    assert_eq!(book.name, "Ruth");
    assert_eq!(book.testament, Testament::Old);
    assert_eq!(book.chapters.len(), 4);
    for (i, chapter) in book.chapters.iter().enumerate() {
        assert_eq!(chapter.chapter_number, i as u32 + 1);
        assert_eq!(chapter.sections.len(), 1);
        assert_eq!(chapter.sections[0].heading, "Section headings to be added");
    }
}

#[test]
fn placeholder_book_with_one_chapter() {
    let book = create_placeholder_book("Philemon", Testament::New, 1);
    assert_eq!(book.testament, Testament::New);
    assert_eq!(book.chapters.len(), 1);
    assert_eq!(book.chapters[0].chapter_number, 1);
    assert_eq!(book.chapters[0].sections[0].heading, PLACEHOLDER_HEADING);
}

#[test]
fn placeholder_book_with_a_count_of_zero_has_no_chapters() {
    let book = create_placeholder_book("Nothing", Testament::Old, 0);
    assert_eq!(book.name, "Nothing");
    assert!(book.chapters.is_empty());
}

#[test]
fn placeholder_heading_is_the_documented_text() {
    assert_eq!(PLACEHOLDER_HEADING, "Section headings to be added");
}

#[test]
fn building_the_catalog_twice_gives_equal_catalogs() {
    let first = get_bible_data();
    let second = get_bible_data();
    assert_eq!(first, second);
}
