//! Building the catalog.
//!
//! The catalog is built once and never changed afterwards. Its value is fixed
//! by [`crate::canon::bible_catalog`]; the functions here construct it.

use crate::canon;
use crate::canon::PLACEHOLDER_HEADING;
use crate::model::{books_in, catalog_view, catalog_wf, Book, Chapter, SectionHeading, Testament};
use vstd::prelude::*;

verus! {

/// Builds a book that lists the chapters 1 to `chapter_count`, each with the
/// stand-in heading as its only section.
///
/// The count is taken as given. A count of zero gives a book without
/// chapters, which is not well formed.
pub fn create_placeholder_book(name: &str, testament: Testament, chapter_count: u32) -> (book: Book)
    ensures
        book@ == canon::placeholder_book(name@, testament, chapter_count),
        chapter_count >= 1 ==> book@.wf(),
{
    let mut chapters: Vec<Chapter> = Vec::new();
    let mut number: u32 = 0;
    while number < chapter_count
        invariant
            number <= chapter_count,
            chapters@.len() == number,
            forall|i: int|
                0 <= i < number ==> (#[trigger] chapters@[i])@ == canon::placeholder_chapter(
                    (i + 1) as u32,
                ),
        decreases chapter_count - number,
    {
        number = number + 1;
        let mut sections: Vec<SectionHeading> = Vec::new();
        sections.push(SectionHeading { heading: PLACEHOLDER_HEADING.to_owned() });
        let chapter = Chapter { chapter_number: number, sections };
        assert(chapter@.sections =~= canon::placeholder_chapter(number).sections);
        chapters.push(chapter);
    }
    let book = Book { name: name.to_owned(), testament, chapters };
    assert(book@.chapters =~= canon::placeholder_book(name@, testament, chapter_count).chapters);
    proof {
        if chapter_count >= 1 {
            canon::lemma_placeholder_book_wf(name@, testament, chapter_count);
        }
    }
    book
}

/// Builds a chapter with the given headings, in order.
fn curated_chapter(number: u32, headings: Vec<&'static str>) -> (chapter: Chapter)
    ensures
        chapter@ == canon::curated_chapter(
            number,
            Seq::new(headings@.len(), |i: int| headings@[i]@),
        ),
{
    let mut sections: Vec<SectionHeading> = Vec::new();
    let mut i: usize = 0;
    while i < headings.len()
        invariant
            i <= headings@.len(),
            sections@.len() == i,
            forall|k: int| 0 <= k < i ==> (#[trigger] sections@[k]).heading@ == headings@[k]@,
        decreases headings@.len() - i,
    {
        sections.push(SectionHeading { heading: headings[i].to_owned() });
        i = i + 1;
    }
    let chapter = Chapter { chapter_number: number, sections };
    assert(chapter@.sections =~= canon::curated_chapter(
        number,
        Seq::new(headings@.len(), |i: int| headings@[i]@),
    ).sections);
    chapter
}

/// Builds Genesis.
fn genesis() -> (book: Book)
    ensures
        book@ == canon::genesis(),
{
    let mut chapters: Vec<Chapter> = Vec::new();
    chapters.push(curated_chapter(1, vec!["The Creation of the World"]));
    chapters.push(
        curated_chapter(
            2,
            vec![
                "The Seventh Day, God Rests",
                "The Creation of Man and Woman",
            ],
        ),
    );
    chapters.push(curated_chapter(3, vec!["The Fall"]));
    chapters.push(curated_chapter(4, vec!["Cain and Abel"]));
    let book = Book { name: "Genesis".to_owned(), testament: Testament::Old, chapters };
    assert(book@.chapters =~~= canon::genesis().chapters);
    book
}

/// Builds Exodus.
fn exodus() -> (book: Book)
    ensures
        book@ == canon::exodus(),
{
    let mut chapters: Vec<Chapter> = Vec::new();
    chapters.push(curated_chapter(1, vec!["Israel Increases Greatly in Egypt"]));
    chapters.push(
        curated_chapter(
            2,
            vec![
                "The Birth of Moses",
                "Moses Flees to Midian",
            ],
        ),
    );
    chapters.push(curated_chapter(3, vec!["The Burning Bush"]));
    chapters.push(curated_chapter(14, vec!["Crossing the Red Sea"]));
    chapters.push(curated_chapter(20, vec!["The Ten Commandments"]));
    let book = Book { name: "Exodus".to_owned(), testament: Testament::Old, chapters };
    assert(book@.chapters =~~= canon::exodus().chapters);
    book
}

/// Builds Psalms.
fn psalms() -> (book: Book)
    ensures
        book@ == canon::psalms(),
{
    let mut chapters: Vec<Chapter> = Vec::new();
    chapters.push(curated_chapter(1, vec!["The Way of the Righteous and the Wicked"]));
    chapters.push(curated_chapter(23, vec!["The Lord Is My Shepherd"]));
    chapters.push(curated_chapter(91, vec!["My Refuge and My Fortress"]));
    chapters.push(curated_chapter(139, vec!["You Have Searched Me and Known Me"]));
    let book = Book { name: "Psalms".to_owned(), testament: Testament::Old, chapters };
    assert(book@.chapters =~~= canon::psalms().chapters);
    book
}

/// Builds Matthew.
fn matthew() -> (book: Book)
    ensures
        book@ == canon::matthew(),
{
    let mut chapters: Vec<Chapter> = Vec::new();
    chapters.push(
        curated_chapter(
            1,
            vec![
                "Superscription: The Messianic Thesis Statement (1:1)",
                "Abraham to David: Covenant Line through the Patriarchs (1:2‚Äì6a)",
                "David to the Exile: Royal Decline and Judgment (1:6b‚Äì11)",
                "Exile to Messiah: Restoration and Fulfillment (1:12‚Äì16)",
                "Theological Structuring of Israel's History (1:17)",
                "Conception by the Holy Spirit (1:18)",
                "Joseph's Righteousness and Intended Mercy (1:19)",
                "Angelic Revelation: Divine Initiative Explained (1:20‚Äì21)",
                "Prophetic Fulfillment Citation (1:22‚Äì23)",
                "Obedient Response of Joseph (1:24‚Äì25a)",
                "Naming the Child (1:25b)",
            ],
        ),
    );
    chapters.push(
        curated_chapter(
            2,
            vec![
                "The Birth in Bethlehem and the Arrival of the Magi (2:1‚Äì2)",
                "Herod's Alarm and Prophetic Clarification (2:3‚Äì6)",
                "Herod's Deceptive Inquiry (2:7‚Äì8)",
                "The Star's Guidance and Joyful Confirmation (2:9‚Äì10)",
                "Homage and Royal Gifts (2:11)",
                "Divine Warning and Providential Protection (2:12)",
                "Escape to Egypt and Fulfillment of Scripture (2:13‚Äì15)",
                "The Massacre of the Infants (2:16‚Äì18)",
                "Death of Herod and Return from Egypt (2:19‚Äì21)",
                "Fear of Archelaus (2:22)",
                "Settlement in Nazareth and Prophetic Fulfillment (2:23)",
            ],
        ),
    );
    chapters.push(
        curated_chapter(
            5,
            vec![
                "The Sermon on the Mount",
                "The Beatitudes",
            ],
        ),
    );
    chapters.push(
        curated_chapter(
            6,
            vec![
                "Giving to the Needy",
                "The Lord's Prayer",
            ],
        ),
    );
    chapters.push(
        curated_chapter(
            28,
            vec![
                "The Resurrection",
                "The Great Commission",
            ],
        ),
    );
    let book = Book { name: "Matthew".to_owned(), testament: Testament::New, chapters };
    assert(book@.chapters =~~= canon::matthew().chapters);
    book
}

/// Builds John.
fn john() -> (book: Book)
    ensures
        book@ == canon::john(),
{
    let mut chapters: Vec<Chapter> = Vec::new();
    chapters.push(
        curated_chapter(
            1,
            vec![
                "The Word Became Flesh",
                "The Testimony of John the Baptist",
            ],
        ),
    );
    chapters.push(
        curated_chapter(
            3,
            vec![
                "You Must Be Born Again",
                "For God So Loved the World",
            ],
        ),
    );
    chapters.push(
        curated_chapter(
            11,
            vec![
                "The Death of Lazarus",
                "I Am the Resurrection and the Life",
            ],
        ),
    );
    chapters.push(curated_chapter(14, vec!["I Am the Way, the Truth, and the Life"]));
    let book = Book { name: "John".to_owned(), testament: Testament::New, chapters };
    assert(book@.chapters =~~= canon::john().chapters);
    book
}

/// Builds Romans.
fn romans() -> (book: Book)
    ensures
        book@ == canon::romans(),
{
    let mut chapters: Vec<Chapter> = Vec::new();
    chapters.push(
        curated_chapter(
            1,
            vec![
                "Greeting",
                "The Righteous Shall Live by Faith",
            ],
        ),
    );
    chapters.push(
        curated_chapter(
            3,
            vec![
                "No One Is Righteous",
                "Righteousness Through Faith in Christ",
            ],
        ),
    );
    chapters.push(curated_chapter(5, vec!["Peace with God Through Faith"]));
    chapters.push(
        curated_chapter(
            8,
            vec![
                "Life in the Spirit",
                "More Than Conquerors",
            ],
        ),
    );
    chapters.push(
        curated_chapter(
            12,
            vec![
                "A Living Sacrifice",
                "Gifts of Grace",
            ],
        ),
    );
    let book = Book { name: "Romans".to_owned(), testament: Testament::New, chapters };
    assert(book@.chapters =~~= canon::romans().chapters);
    book
}

/// Builds Revelation.
fn revelation() -> (book: Book)
    ensures
        book@ == canon::revelation(),
{
    let mut chapters: Vec<Chapter> = Vec::new();
    chapters.push(
        curated_chapter(
            1,
            vec![
                "Prologue",
                "Vision of the Son of Man",
            ],
        ),
    );
    chapters.push(curated_chapter(21, vec!["The New Heaven and the New Earth"]));
    chapters.push(
        curated_chapter(
            22,
            vec![
                "The River of Life",
                "Jesus Is Coming",
            ],
        ),
    );
    let book = Book { name: "Revelation".to_owned(), testament: Testament::New, chapters };
    assert(book@.chapters =~~= canon::revelation().chapters);
    book
}

/// Builds the books of the Old Testament.
fn old_testament() -> (books: Vec<Book>)
    ensures
        catalog_view(books@) == canon::old_testament(),
{
    let mut books: Vec<Book> = Vec::new();
    books.push(genesis());
    books.push(exodus());
    books.push(psalms());
    books.push(create_placeholder_book("Leviticus", Testament::Old, 27));
    books.push(create_placeholder_book("Numbers", Testament::Old, 36));
    books.push(create_placeholder_book("Deuteronomy", Testament::Old, 34));
    books.push(create_placeholder_book("Joshua", Testament::Old, 24));
    books.push(create_placeholder_book("Judges", Testament::Old, 21));
    books.push(create_placeholder_book("Ruth", Testament::Old, 4));
    books.push(create_placeholder_book("1 Samuel", Testament::Old, 31));
    books.push(create_placeholder_book("2 Samuel", Testament::Old, 24));
    books.push(create_placeholder_book("1 Kings", Testament::Old, 22));
    books.push(create_placeholder_book("2 Kings", Testament::Old, 25));
    books.push(create_placeholder_book("1 Chronicles", Testament::Old, 29));
    books.push(create_placeholder_book("2 Chronicles", Testament::Old, 36));
    books.push(create_placeholder_book("Ezra", Testament::Old, 10));
    books.push(create_placeholder_book("Nehemiah", Testament::Old, 13));
    books.push(create_placeholder_book("Esther", Testament::Old, 10));
    books.push(create_placeholder_book("Job", Testament::Old, 42));
    books.push(create_placeholder_book("Proverbs", Testament::Old, 31));
    books.push(create_placeholder_book("Ecclesiastes", Testament::Old, 12));
    books.push(create_placeholder_book("Song of Solomon", Testament::Old, 8));
    books.push(create_placeholder_book("Isaiah", Testament::Old, 66));
    books.push(create_placeholder_book("Jeremiah", Testament::Old, 52));
    books.push(create_placeholder_book("Lamentations", Testament::Old, 5));
    books.push(create_placeholder_book("Ezekiel", Testament::Old, 48));
    books.push(create_placeholder_book("Daniel", Testament::Old, 12));
    books.push(create_placeholder_book("Hosea", Testament::Old, 14));
    books.push(create_placeholder_book("Joel", Testament::Old, 3));
    books.push(create_placeholder_book("Amos", Testament::Old, 9));
    books.push(create_placeholder_book("Obadiah", Testament::Old, 1));
    books.push(create_placeholder_book("Jonah", Testament::Old, 4));
    books.push(create_placeholder_book("Micah", Testament::Old, 7));
    books.push(create_placeholder_book("Nahum", Testament::Old, 3));
    books.push(create_placeholder_book("Habakkuk", Testament::Old, 3));
    books.push(create_placeholder_book("Zephaniah", Testament::Old, 3));
    books.push(create_placeholder_book("Haggai", Testament::Old, 2));
    books.push(create_placeholder_book("Zechariah", Testament::Old, 14));
    books.push(create_placeholder_book("Malachi", Testament::Old, 4));
    assert(catalog_view(books@) =~~= canon::old_testament());
    books
}

/// Builds the books of the New Testament.
fn new_testament() -> (books: Vec<Book>)
    ensures
        catalog_view(books@) == canon::new_testament(),
{
    let mut books: Vec<Book> = Vec::new();
    books.push(matthew());
    books.push(create_placeholder_book("Mark", Testament::New, 16));
    books.push(create_placeholder_book("Luke", Testament::New, 24));
    books.push(john());
    books.push(create_placeholder_book("Acts", Testament::New, 28));
    books.push(romans());
    books.push(create_placeholder_book("1 Corinthians", Testament::New, 16));
    books.push(create_placeholder_book("2 Corinthians", Testament::New, 13));
    books.push(create_placeholder_book("Galatians", Testament::New, 6));
    books.push(create_placeholder_book("Ephesians", Testament::New, 6));
    books.push(create_placeholder_book("Philippians", Testament::New, 4));
    books.push(create_placeholder_book("Colossians", Testament::New, 4));
    books.push(create_placeholder_book("1 Thessalonians", Testament::New, 5));
    books.push(create_placeholder_book("2 Thessalonians", Testament::New, 3));
    books.push(create_placeholder_book("1 Timothy", Testament::New, 6));
    books.push(create_placeholder_book("2 Timothy", Testament::New, 4));
    books.push(create_placeholder_book("Titus", Testament::New, 3));
    books.push(create_placeholder_book("Philemon", Testament::New, 1));
    books.push(create_placeholder_book("Hebrews", Testament::New, 13));
    books.push(create_placeholder_book("James", Testament::New, 5));
    books.push(create_placeholder_book("1 Peter", Testament::New, 5));
    books.push(create_placeholder_book("2 Peter", Testament::New, 3));
    books.push(create_placeholder_book("1 John", Testament::New, 5));
    books.push(create_placeholder_book("2 John", Testament::New, 1));
    books.push(create_placeholder_book("3 John", Testament::New, 1));
    books.push(create_placeholder_book("Jude", Testament::New, 1));
    books.push(revelation());
    assert(catalog_view(books@) =~~= canon::new_testament());
    books
}

/// Builds the catalog: the books of the Old Testament followed by those of
/// the New, each testament in canonical order.
pub fn get_bible_data() -> (books: Vec<Book>)
    ensures
        catalog_view(books@) == canon::bible_catalog(),
        books@.len() == 66,
        books_in(catalog_view(books@), Testament::Old) == 39,
        books_in(catalog_view(books@), Testament::New) == 27,
        catalog_wf(catalog_view(books@)),
{
    let mut books = old_testament();
    let mut rest = new_testament();
    books.append(&mut rest);
    proof {
        assert(catalog_view(books@) =~= canon::bible_catalog());
        canon::lemma_catalog_complete();
        canon::lemma_catalog_wf();
    }
    books
}

/// Building the catalog is deterministic: whatever two calls of
/// [`get_bible_data`] return is equal field for field.
pub proof fn lemma_get_bible_data_deterministic(first: Vec<Book>, second: Vec<Book>)
    requires
        call_ensures(get_bible_data, (), first),
        call_ensures(get_bible_data, (), second),
    ensures
        catalog_view(first@) == catalog_view(second@),
{
}

} // verus!
