//! The catalog as a mathematical value: the books of both testaments in
//! canonical order. A few books carry curated chapters with the headings of
//! their sections; the others list every chapter with a stand-in heading.

use crate::model::{
    books_in, catalog_wf, distinct_names, lemma_books_in_concat, lemma_books_in_uniform,
    BookView, ChapterView, SectionHeadingView, Testament,
};
use vstd::prelude::*;

verus! {

/// The heading that stands in for the sections of a chapter not yet curated.
pub const PLACEHOLDER_HEADING: &'static str = "Section headings to be added";

/// A chapter with the given headings, in order.
pub open spec fn curated_chapter(number: u32, headings: Seq<Seq<char>>) -> ChapterView {
    ChapterView {
        chapter_number: number,
        sections: Seq::new(headings.len(), |i: int| SectionHeadingView { heading: headings[i] }),
    }
}

/// A chapter whose only heading is the stand-in.
pub open spec fn placeholder_chapter(number: u32) -> ChapterView {
    ChapterView {
        chapter_number: number,
        sections: seq![SectionHeadingView { heading: PLACEHOLDER_HEADING@ }],
    }
}

/// A book that lists the chapters 1 to `chapter_count`, each with the
/// stand-in heading.
pub open spec fn placeholder_book(
    name: Seq<char>,
    testament: Testament,
    chapter_count: u32,
) -> BookView {
    BookView {
        name,
        testament,
        chapters: Seq::new(chapter_count as nat, |i: int| placeholder_chapter((i + 1) as u32)),
    }
}

/// Genesis, with the chapters curated for it.
pub open spec fn genesis() -> BookView {
    BookView {
        name: "Genesis"@,
        testament: Testament::Old,
        chapters: seq![
            curated_chapter(1, seq!["The Creation of the World"@]),
            curated_chapter(
                2,
                seq![
                    "The Seventh Day, God Rests"@,
                    "The Creation of Man and Woman"@,
                ],
            ),
            curated_chapter(3, seq!["The Fall"@]),
            curated_chapter(4, seq!["Cain and Abel"@]),
        ],
    }
}

/// Exodus, with the chapters curated for it.
pub open spec fn exodus() -> BookView {
    BookView {
        name: "Exodus"@,
        testament: Testament::Old,
        chapters: seq![
            curated_chapter(1, seq!["Israel Increases Greatly in Egypt"@]),
            curated_chapter(
                2,
                seq![
                    "The Birth of Moses"@,
                    "Moses Flees to Midian"@,
                ],
            ),
            curated_chapter(3, seq!["The Burning Bush"@]),
            curated_chapter(14, seq!["Crossing the Red Sea"@]),
            curated_chapter(20, seq!["The Ten Commandments"@]),
        ],
    }
}

/// Psalms, with the chapters curated for it.
pub open spec fn psalms() -> BookView {
    BookView {
        name: "Psalms"@,
        testament: Testament::Old,
        chapters: seq![
            curated_chapter(1, seq!["The Way of the Righteous and the Wicked"@]),
            curated_chapter(23, seq!["The Lord Is My Shepherd"@]),
            curated_chapter(91, seq!["My Refuge and My Fortress"@]),
            curated_chapter(139, seq!["You Have Searched Me and Known Me"@]),
        ],
    }
}

/// Matthew, with the chapters curated for it.
pub open spec fn matthew() -> BookView {
    BookView {
        name: "Matthew"@,
        testament: Testament::New,
        chapters: seq![
            curated_chapter(
                1,
                seq![
                    "Superscription: The Messianic Thesis Statement (1:1)"@,
                    "Abraham to David: Covenant Line through the Patriarchs (1:2‚Äì6a)"@,
                    "David to the Exile: Royal Decline and Judgment (1:6b‚Äì11)"@,
                    "Exile to Messiah: Restoration and Fulfillment (1:12‚Äì16)"@,
                    "Theological Structuring of Israel's History (1:17)"@,
                    "Conception by the Holy Spirit (1:18)"@,
                    "Joseph's Righteousness and Intended Mercy (1:19)"@,
                    "Angelic Revelation: Divine Initiative Explained (1:20‚Äì21)"@,
                    "Prophetic Fulfillment Citation (1:22‚Äì23)"@,
                    "Obedient Response of Joseph (1:24‚Äì25a)"@,
                    "Naming the Child (1:25b)"@,
                ],
            ),
            curated_chapter(
                2,
                seq![
                    "The Birth in Bethlehem and the Arrival of the Magi (2:1‚Äì2)"@,
                    "Herod's Alarm and Prophetic Clarification (2:3‚Äì6)"@,
                    "Herod's Deceptive Inquiry (2:7‚Äì8)"@,
                    "The Star's Guidance and Joyful Confirmation (2:9‚Äì10)"@,
                    "Homage and Royal Gifts (2:11)"@,
                    "Divine Warning and Providential Protection (2:12)"@,
                    "Escape to Egypt and Fulfillment of Scripture (2:13‚Äì15)"@,
                    "The Massacre of the Infants (2:16‚Äì18)"@,
                    "Death of Herod and Return from Egypt (2:19‚Äì21)"@,
                    "Fear of Archelaus (2:22)"@,
                    "Settlement in Nazareth and Prophetic Fulfillment (2:23)"@,
                ],
            ),
            curated_chapter(
                5,
                seq![
                    "The Sermon on the Mount"@,
                    "The Beatitudes"@,
                ],
            ),
            curated_chapter(
                6,
                seq![
                    "Giving to the Needy"@,
                    "The Lord's Prayer"@,
                ],
            ),
            curated_chapter(
                28,
                seq![
                    "The Resurrection"@,
                    "The Great Commission"@,
                ],
            ),
        ],
    }
}

/// John, with the chapters curated for it.
pub open spec fn john() -> BookView {
    BookView {
        name: "John"@,
        testament: Testament::New,
        chapters: seq![
            curated_chapter(
                1,
                seq![
                    "The Word Became Flesh"@,
                    "The Testimony of John the Baptist"@,
                ],
            ),
            curated_chapter(
                3,
                seq![
                    "You Must Be Born Again"@,
                    "For God So Loved the World"@,
                ],
            ),
            curated_chapter(
                11,
                seq![
                    "The Death of Lazarus"@,
                    "I Am the Resurrection and the Life"@,
                ],
            ),
            curated_chapter(14, seq!["I Am the Way, the Truth, and the Life"@]),
        ],
    }
}

/// Romans, with the chapters curated for it.
pub open spec fn romans() -> BookView {
    BookView {
        name: "Romans"@,
        testament: Testament::New,
        chapters: seq![
            curated_chapter(
                1,
                seq![
                    "Greeting"@,
                    "The Righteous Shall Live by Faith"@,
                ],
            ),
            curated_chapter(
                3,
                seq![
                    "No One Is Righteous"@,
                    "Righteousness Through Faith in Christ"@,
                ],
            ),
            curated_chapter(5, seq!["Peace with God Through Faith"@]),
            curated_chapter(
                8,
                seq![
                    "Life in the Spirit"@,
                    "More Than Conquerors"@,
                ],
            ),
            curated_chapter(
                12,
                seq![
                    "A Living Sacrifice"@,
                    "Gifts of Grace"@,
                ],
            ),
        ],
    }
}

/// Revelation, with the chapters curated for it.
pub open spec fn revelation() -> BookView {
    BookView {
        name: "Revelation"@,
        testament: Testament::New,
        chapters: seq![
            curated_chapter(
                1,
                seq![
                    "Prologue"@,
                    "Vision of the Son of Man"@,
                ],
            ),
            curated_chapter(21, seq!["The New Heaven and the New Earth"@]),
            curated_chapter(
                22,
                seq![
                    "The River of Life"@,
                    "Jesus Is Coming"@,
                ],
            ),
        ],
    }
}

/// The books of the Old Testament, in order.
pub open spec fn old_testament() -> Seq<BookView> {
    seq![
        genesis(),
        exodus(),
        psalms(),
        placeholder_book("Leviticus"@, Testament::Old, 27),
        placeholder_book("Numbers"@, Testament::Old, 36),
        placeholder_book("Deuteronomy"@, Testament::Old, 34),
        placeholder_book("Joshua"@, Testament::Old, 24),
        placeholder_book("Judges"@, Testament::Old, 21),
        placeholder_book("Ruth"@, Testament::Old, 4),
        placeholder_book("1 Samuel"@, Testament::Old, 31),
        placeholder_book("2 Samuel"@, Testament::Old, 24),
        placeholder_book("1 Kings"@, Testament::Old, 22),
        placeholder_book("2 Kings"@, Testament::Old, 25),
        placeholder_book("1 Chronicles"@, Testament::Old, 29),
        placeholder_book("2 Chronicles"@, Testament::Old, 36),
        placeholder_book("Ezra"@, Testament::Old, 10),
        placeholder_book("Nehemiah"@, Testament::Old, 13),
        placeholder_book("Esther"@, Testament::Old, 10),
        placeholder_book("Job"@, Testament::Old, 42),
        placeholder_book("Proverbs"@, Testament::Old, 31),
        placeholder_book("Ecclesiastes"@, Testament::Old, 12),
        placeholder_book("Song of Solomon"@, Testament::Old, 8),
        placeholder_book("Isaiah"@, Testament::Old, 66),
        placeholder_book("Jeremiah"@, Testament::Old, 52),
        placeholder_book("Lamentations"@, Testament::Old, 5),
        placeholder_book("Ezekiel"@, Testament::Old, 48),
        placeholder_book("Daniel"@, Testament::Old, 12),
        placeholder_book("Hosea"@, Testament::Old, 14),
        placeholder_book("Joel"@, Testament::Old, 3),
        placeholder_book("Amos"@, Testament::Old, 9),
        placeholder_book("Obadiah"@, Testament::Old, 1),
        placeholder_book("Jonah"@, Testament::Old, 4),
        placeholder_book("Micah"@, Testament::Old, 7),
        placeholder_book("Nahum"@, Testament::Old, 3),
        placeholder_book("Habakkuk"@, Testament::Old, 3),
        placeholder_book("Zephaniah"@, Testament::Old, 3),
        placeholder_book("Haggai"@, Testament::Old, 2),
        placeholder_book("Zechariah"@, Testament::Old, 14),
        placeholder_book("Malachi"@, Testament::Old, 4),
    ]
}

/// The books of the New Testament, in order.
pub open spec fn new_testament() -> Seq<BookView> {
    seq![
        matthew(),
        placeholder_book("Mark"@, Testament::New, 16),
        placeholder_book("Luke"@, Testament::New, 24),
        john(),
        placeholder_book("Acts"@, Testament::New, 28),
        romans(),
        placeholder_book("1 Corinthians"@, Testament::New, 16),
        placeholder_book("2 Corinthians"@, Testament::New, 13),
        placeholder_book("Galatians"@, Testament::New, 6),
        placeholder_book("Ephesians"@, Testament::New, 6),
        placeholder_book("Philippians"@, Testament::New, 4),
        placeholder_book("Colossians"@, Testament::New, 4),
        placeholder_book("1 Thessalonians"@, Testament::New, 5),
        placeholder_book("2 Thessalonians"@, Testament::New, 3),
        placeholder_book("1 Timothy"@, Testament::New, 6),
        placeholder_book("2 Timothy"@, Testament::New, 4),
        placeholder_book("Titus"@, Testament::New, 3),
        placeholder_book("Philemon"@, Testament::New, 1),
        placeholder_book("Hebrews"@, Testament::New, 13),
        placeholder_book("James"@, Testament::New, 5),
        placeholder_book("1 Peter"@, Testament::New, 5),
        placeholder_book("2 Peter"@, Testament::New, 3),
        placeholder_book("1 John"@, Testament::New, 5),
        placeholder_book("2 John"@, Testament::New, 1),
        placeholder_book("3 John"@, Testament::New, 1),
        placeholder_book("Jude"@, Testament::New, 1),
        revelation(),
    ]
}

/// The whole catalog: the Old Testament followed by the New.
pub open spec fn bible_catalog() -> Seq<BookView> {
    old_testament() + new_testament()
}

/// A placeholder book with at least one chapter is well formed.
pub proof fn lemma_placeholder_book_wf(name: Seq<char>, testament: Testament, chapter_count: u32)
    requires
        chapter_count >= 1,
    ensures
        placeholder_book(name, testament, chapter_count).wf(),
{
}

/// A placeholder book lists exactly the chapters 1 to `chapter_count`, in
/// order, and each of them has the stand-in heading as its only section.
pub proof fn lemma_placeholder_book_shape(
    name: Seq<char>,
    testament: Testament,
    chapter_count: u32,
)
    ensures
        placeholder_book(name, testament, chapter_count).name == name,
        placeholder_book(name, testament, chapter_count).testament == testament,
        placeholder_book(name, testament, chapter_count).chapters.len() == chapter_count,
        forall|i: int|
            #![trigger placeholder_book(name, testament, chapter_count).chapters[i]]
            0 <= i < chapter_count ==> {
                let chapter = placeholder_book(name, testament, chapter_count).chapters[i];
                &&& chapter.chapter_number == i + 1
                &&& chapter.sections.len() == 1
                &&& chapter.sections[0].heading == PLACEHOLDER_HEADING@
            },
{
}

/// The catalog is complete: it holds 66 books, 39 of the Old Testament and
/// 27 of the New.
pub proof fn lemma_catalog_complete()
    ensures
        bible_catalog().len() == 66,
        books_in(bible_catalog(), Testament::Old) == 39,
        books_in(bible_catalog(), Testament::New) == 27,
{
    lemma_books_in_concat(old_testament(), new_testament(), Testament::Old);
    lemma_books_in_concat(old_testament(), new_testament(), Testament::New);
    lemma_books_in_uniform(old_testament(), Testament::Old, Testament::Old);
    lemma_books_in_uniform(old_testament(), Testament::Old, Testament::New);
    lemma_books_in_uniform(new_testament(), Testament::New, Testament::Old);
    lemma_books_in_uniform(new_testament(), Testament::New, Testament::New);
}

/// Every book of the catalog has at least one chapter and every chapter at
/// least one section.
pub proof fn lemma_catalog_nonempty()
    ensures
        forall|i: int| 0 <= i < bible_catalog().len() ==> (#[trigger] bible_catalog()[i]).wf(),
{
    assert forall|name: Seq<char>, testament: Testament, chapter_count: u32|
        chapter_count >= 1 implies (#[trigger] placeholder_book(
        name,
        testament,
        chapter_count,
    )).wf() by {
        lemma_placeholder_book_wf(name, testament, chapter_count);
    }
    assert(genesis().wf());
    assert(exodus().wf());
    assert(psalms().wf());
    assert(matthew().wf());
    assert(john().wf());
    assert(romans().wf());
    assert(revelation().wf());
    let old = old_testament();
    let new = new_testament();
    assert forall|i: int| 0 <= i < old.len() implies (#[trigger] old[i]).wf() by {
    }
    assert forall|i: int| 0 <= i < new.len() implies (#[trigger] new[i]).wf() by {
    }
}

/// The catalog is well formed: no list in it is empty and no name occurs twice.
pub proof fn lemma_catalog_wf()
    ensures
        catalog_wf(bible_catalog()),
{
    lemma_catalog_nonempty();
    lemma_catalog_names_distinct();
}

/// What already tells the names of the catalog apart: the length of a name,
/// its first character and its third.
pub open spec fn name_key(name: Seq<char>) -> (nat, char, char) {
    (name.len(), name[0], name[2])
}

/// No two books of the catalog share a name.
pub proof fn lemma_catalog_names_distinct()
    ensures
        distinct_names(bible_catalog()),
{
    reveal_strlit("Genesis");
    reveal_strlit("Exodus");
    reveal_strlit("Psalms");
    reveal_strlit("Leviticus");
    reveal_strlit("Numbers");
    reveal_strlit("Deuteronomy");
    reveal_strlit("Joshua");
    reveal_strlit("Judges");
    reveal_strlit("Ruth");
    reveal_strlit("1 Samuel");
    reveal_strlit("2 Samuel");
    reveal_strlit("1 Kings");
    reveal_strlit("2 Kings");
    reveal_strlit("1 Chronicles");
    reveal_strlit("2 Chronicles");
    reveal_strlit("Ezra");
    reveal_strlit("Nehemiah");
    reveal_strlit("Esther");
    reveal_strlit("Job");
    reveal_strlit("Proverbs");
    reveal_strlit("Ecclesiastes");
    reveal_strlit("Song of Solomon");
    reveal_strlit("Isaiah");
    reveal_strlit("Jeremiah");
    reveal_strlit("Lamentations");
    reveal_strlit("Ezekiel");
    reveal_strlit("Daniel");
    reveal_strlit("Hosea");
    reveal_strlit("Joel");
    reveal_strlit("Amos");
    reveal_strlit("Obadiah");
    reveal_strlit("Jonah");
    reveal_strlit("Micah");
    reveal_strlit("Nahum");
    reveal_strlit("Habakkuk");
    reveal_strlit("Zephaniah");
    reveal_strlit("Haggai");
    reveal_strlit("Zechariah");
    reveal_strlit("Malachi");
    reveal_strlit("Matthew");
    reveal_strlit("Mark");
    reveal_strlit("Luke");
    reveal_strlit("John");
    reveal_strlit("Acts");
    reveal_strlit("Romans");
    reveal_strlit("1 Corinthians");
    reveal_strlit("2 Corinthians");
    reveal_strlit("Galatians");
    reveal_strlit("Ephesians");
    reveal_strlit("Philippians");
    reveal_strlit("Colossians");
    reveal_strlit("1 Thessalonians");
    reveal_strlit("2 Thessalonians");
    reveal_strlit("1 Timothy");
    reveal_strlit("2 Timothy");
    reveal_strlit("Titus");
    reveal_strlit("Philemon");
    reveal_strlit("Hebrews");
    reveal_strlit("James");
    reveal_strlit("1 Peter");
    reveal_strlit("2 Peter");
    reveal_strlit("1 John");
    reveal_strlit("2 John");
    reveal_strlit("3 John");
    reveal_strlit("Jude");
    reveal_strlit("Revelation");
    assert forall|i: int, j: int| 0 <= i < j < bible_catalog().len() implies name_key(
        (#[trigger] bible_catalog()[i]).name,
    ) != name_key((#[trigger] bible_catalog()[j]).name) by {
    }
}

} // verus!
