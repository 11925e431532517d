//! The HTML page.
//!
//! The page is the fixed text of [`crate::template`] with one card per book
//! between its head and its tail. A card carries three attributes that the
//! script of the page filters on: `data-book-name` (the slug of the book),
//! `data-testament` (the class of its testament) and, on each chapter,
//! `data-search-text` (the search index of the chapter). Names and headings
//! are written as they are; only the slug and the search index are lowered.

use crate::model::{
    catalog_view, chapters_view, sections_view, Book, BookView, Chapter, ChapterView,
    SectionHeading, SectionHeadingView, Testament,
};
use crate::template::{
    BOOK_CARD_CLOSE, BOOK_CARD_OPEN, BOOK_NAME_ATTR, BOOK_TESTAMENT_ATTR, BOOK_TITLE_CLOSE,
    BOOK_TITLE_OPEN, CHAPTER_CARD_CLOSE, CHAPTER_CARD_OPEN, CHAPTER_NUMBER_CLOSE,
    CHAPTER_NUMBER_OPEN, PAGE_HEAD, PAGE_TAIL, SECTION_CLOSE, SECTION_OPEN,
};
use crate::text::{
    concat_map, decimal, lemma_concat_map_empty, lemma_concat_map_step, lowercase, push_char,
    push_decimal, to_lowercase,
};
use vstd::prelude::*;
use vstd::string::*;

verus! {

/// The class of the cards of Old Testament books.
pub const OLD_TESTAMENT_CLASS: &'static str = "old-testament";

/// The class of the cards of New Testament books.
pub const NEW_TESTAMENT_CLASS: &'static str = "new-testament";

/// The class token of a testament.
pub open spec fn testament_class(testament: Testament) -> Seq<char> {
    match testament {
        Testament::Old => OLD_TESTAMENT_CLASS@,
        Testament::New => NEW_TESTAMENT_CLASS@,
    }
}

/// The slug of a book: its name in lowercase, nothing removed.
pub open spec fn slug(name: Seq<char>) -> Seq<char> {
    lowercase(name)
}

/// What one heading adds to the search index, given its lowercase form: that
/// form followed by one space.
pub open spec fn search_entry(lowered: Seq<char>) -> Seq<char> {
    lowered.push(' ')
}

/// The search index of a chapter: the lowercase form of each heading, each
/// followed by one space, in the order of the sections.
pub open spec fn search_text(sections: Seq<SectionHeadingView>) -> Seq<char> {
    concat_map(sections, |s: SectionHeadingView| search_entry(lowercase(s.heading)))
}

/// The markup of one section heading. The text is written as it is.
pub open spec fn section_html(section: SectionHeadingView) -> Seq<char> {
    SECTION_OPEN@ + section.heading + SECTION_CLOSE@
}

/// The card of a chapter, given its search index.
pub open spec fn chapter_card(chapter: ChapterView, search: Seq<char>) -> Seq<char> {
    CHAPTER_CARD_OPEN@ + search + CHAPTER_NUMBER_OPEN@ + decimal(chapter.chapter_number as nat)
        + CHAPTER_NUMBER_CLOSE@ + concat_map(
        chapter.sections,
        |s: SectionHeadingView| section_html(s),
    ) + CHAPTER_CARD_CLOSE@
}

/// The card of a chapter.
pub open spec fn chapter_html(chapter: ChapterView) -> Seq<char> {
    chapter_card(chapter, search_text(chapter.sections))
}

/// The opening of the card of a book, given the slug of the book.
pub open spec fn book_card_open(book: BookView, slug: Seq<char>) -> Seq<char> {
    BOOK_CARD_OPEN@ + testament_class(book.testament) + BOOK_NAME_ATTR@ + slug
        + BOOK_TESTAMENT_ATTR@ + testament_class(book.testament) + BOOK_TITLE_OPEN@ + book.name
        + BOOK_TITLE_CLOSE@
}

/// The card of a book: its opening, the cards of its chapters in order, and
/// its closing.
pub open spec fn book_html(book: BookView) -> Seq<char> {
    book_card_open(book, slug(book.name)) + concat_map(
        book.chapters,
        |c: ChapterView| chapter_html(c),
    ) + BOOK_CARD_CLOSE@
}

/// The whole page: the cards of the books, in the order of the catalog,
/// between the head and the tail of the page.
pub open spec fn html_document(catalog: Seq<BookView>) -> Seq<char> {
    PAGE_HEAD@ + concat_map(catalog, |b: BookView| book_html(b)) + PAGE_TAIL@
}

/// The class token of a testament.
pub fn class_of(testament: Testament) -> (class: &'static str)
    ensures
        class@ == testament_class(testament),
{
    match testament {
        Testament::Old => OLD_TESTAMENT_CLASS,
        Testament::New => NEW_TESTAMENT_CLASS,
    }
}

/// The slug of a book.
pub fn book_slug(book: &Book) -> (lowered: String)
    ensures
        lowered@ == slug(book@.name),
{
    to_lowercase(book.name.as_str())
}

/// Appends to a search index what one heading adds to it, given the
/// lowercase form of the heading.
pub fn push_search_entry(index: &mut String, lowered: &str)
    ensures
        final(index)@ == old(index)@ + search_entry(lowered@),
{
    index.append(lowered);
    push_char(index, ' ');
    assert(final(index)@ =~= old(index)@ + search_entry(lowered@));
}

/// The search index of a chapter.
pub fn search_index(chapter: &Chapter) -> (index: String)
    ensures
        index@ == search_text(chapter@.sections),
{
    let ghost entry = |s: SectionHeadingView| search_entry(lowercase(s.heading));
    let ghost sections = chapter@.sections;
    let mut index = String::new();
    let mut i: usize = 0;
    proof {
        lemma_concat_map_empty(entry);
        assert(sections.take(0) =~= Seq::empty());
    }
    while i < chapter.sections.len()
        invariant
            i <= chapter.sections@.len(),
            sections == sections_view(chapter.sections@),
            entry == |s: SectionHeadingView| search_entry(lowercase(s.heading)),
            index@ == concat_map(sections.take(i as int), entry),
        decreases chapter.sections@.len() - i,
    {
        let lowered = to_lowercase(chapter.sections[i].heading.as_str());
        push_search_entry(&mut index, lowered.as_str());
        proof {
            lemma_concat_map_step(sections, i as int, entry);
        }
        i = i + 1;
    }
    assert(sections.take(i as int) =~= sections);
    index
}

/// Appends the markup of one section heading.
pub fn push_section(out: &mut String, section: &SectionHeading)
    ensures
        final(out)@ == old(out)@ + section_html(section@),
{
    out.append(SECTION_OPEN);
    out.append(section.heading.as_str());
    out.append(SECTION_CLOSE);
    assert(final(out)@ =~= old(out)@ + section_html(section@));
}

/// Appends the card of a chapter, given the search index of the chapter.
pub fn push_chapter_card(out: &mut String, chapter: &Chapter, search: &str)
    ensures
        final(out)@ == old(out)@ + chapter_card(chapter@, search@),
{
    let ghost markup = |s: SectionHeadingView| section_html(s);
    let ghost sections = chapter@.sections;
    out.append(CHAPTER_CARD_OPEN);
    out.append(search);
    out.append(CHAPTER_NUMBER_OPEN);
    push_decimal(out, chapter.chapter_number);
    out.append(CHAPTER_NUMBER_CLOSE);
    let ghost before = out@;
    let mut i: usize = 0;
    proof {
        lemma_concat_map_empty(markup);
        assert(sections.take(0) =~= Seq::empty());
        assert(out@ =~= before + concat_map(sections.take(0), markup));
    }
    while i < chapter.sections.len()
        invariant
            i <= chapter.sections@.len(),
            sections == sections_view(chapter.sections@),
            markup == |s: SectionHeadingView| section_html(s),
            out@ == before + concat_map(sections.take(i as int), markup),
        decreases chapter.sections@.len() - i,
    {
        push_section(out, &chapter.sections[i]);
        proof {
            lemma_concat_map_step(sections, i as int, markup);
            assert(out@ =~= before + concat_map(sections.take(i + 1), markup));
        }
        i = i + 1;
    }
    out.append(CHAPTER_CARD_CLOSE);
    proof {
        assert(sections.take(i as int) =~= sections);
        assert(final(out)@ =~= old(out)@ + chapter_card(chapter@, search@));
    }
}

/// Appends the opening of the card of a book, given the slug of the book.
pub fn push_book_card_open(out: &mut String, book: &Book, slug: &str)
    ensures
        final(out)@ == old(out)@ + book_card_open(book@, slug@),
{
    let class = class_of(book.testament);
    out.append(BOOK_CARD_OPEN);
    out.append(class);
    out.append(BOOK_NAME_ATTR);
    out.append(slug);
    out.append(BOOK_TESTAMENT_ATTR);
    out.append(class);
    out.append(BOOK_TITLE_OPEN);
    out.append(book.name.as_str());
    out.append(BOOK_TITLE_CLOSE);
    assert(final(out)@ =~= old(out)@ + book_card_open(book@, slug@));
}

/// Appends the card of a book.
pub fn push_book(out: &mut String, book: &Book)
    ensures
        final(out)@ == old(out)@ + book_html(book@),
{
    let ghost card = |c: ChapterView| chapter_html(c);
    let ghost chapters = book@.chapters;
    let lowered = book_slug(book);
    push_book_card_open(out, book, lowered.as_str());
    let ghost before = out@;
    let mut i: usize = 0;
    proof {
        lemma_concat_map_empty(card);
        assert(chapters.take(0) =~= Seq::empty());
        assert(out@ =~= before + concat_map(chapters.take(0), card));
    }
    while i < book.chapters.len()
        invariant
            i <= book.chapters@.len(),
            chapters == chapters_view(book.chapters@),
            card == |c: ChapterView| chapter_html(c),
            out@ == before + concat_map(chapters.take(i as int), card),
        decreases book.chapters@.len() - i,
    {
        let search = search_index(&book.chapters[i]);
        push_chapter_card(out, &book.chapters[i], search.as_str());
        proof {
            lemma_concat_map_step(chapters, i as int, card);
            assert(out@ =~= before + concat_map(chapters.take(i + 1), card));
        }
        i = i + 1;
    }
    out.append(BOOK_CARD_CLOSE);
    proof {
        assert(chapters.take(i as int) =~= chapters);
        assert(final(out)@ =~= old(out)@ + book_html(book@));
    }
}

/// Renders the page for a catalog.
pub fn generate_html(books: &[Book]) -> (html: String)
    ensures
        html@ == html_document(catalog_view(books@)),
{
    let ghost card = |b: BookView| book_html(b);
    let ghost catalog = catalog_view(books@);
    let mut html = String::new();
    html.append(PAGE_HEAD);
    let mut i: usize = 0;
    proof {
        lemma_concat_map_empty(card);
        assert(catalog.take(0) =~= Seq::empty());
        assert(html@ =~= PAGE_HEAD@ + concat_map(catalog.take(0), card));
    }
    while i < books.len()
        invariant
            i <= books@.len(),
            catalog == catalog_view(books@),
            card == |b: BookView| book_html(b),
            html@ == PAGE_HEAD@ + concat_map(catalog.take(i as int), card),
        decreases books@.len() - i,
    {
        push_book(&mut html, &books[i]);
        proof {
            lemma_concat_map_step(catalog, i as int, card);
            assert(html@ =~= PAGE_HEAD@ + concat_map(catalog.take(i + 1), card));
        }
        i = i + 1;
    }
    html.append(PAGE_TAIL);
    proof {
        assert(catalog.take(i as int) =~= catalog);
    }
    html
}

} // verus!
