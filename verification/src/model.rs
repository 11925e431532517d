//! The data model of the catalog and its mathematical views.
//!
//! Every executable type has a view that holds the same fields as
//! mathematical values: text as `Seq<char>`, lists as `Seq`. The contracts
//! of the library are stated over these views.

use vstd::prelude::*;

verus! {

/// One of the two divisions of the catalog.
#[derive(Debug, Clone, Copy, PartialEq, Eq, Structural)]
pub enum Testament {
    Old,
    New,
}

/// A titled subsection of a chapter.
#[derive(Debug, Clone, PartialEq, Eq)]
pub struct SectionHeading {
    pub heading: String,
}

/// A chapter of a book with the headings of its sections, in order.
#[derive(Debug, Clone, PartialEq, Eq)]
pub struct Chapter {
    pub chapter_number: u32,
    pub sections: Vec<SectionHeading>,
}

/// A book with the chapters listed for it, in order.
#[derive(Debug, Clone, PartialEq, Eq)]
pub struct Book {
    pub name: String,
    pub testament: Testament,
    pub chapters: Vec<Chapter>,
}

/// The view of a [`SectionHeading`].
#[verifier::ext_equal]
pub struct SectionHeadingView {
    pub heading: Seq<char>,
}

/// The view of a [`Chapter`].
#[verifier::ext_equal]
pub struct ChapterView {
    pub chapter_number: u32,
    pub sections: Seq<SectionHeadingView>,
}

/// The view of a [`Book`].
#[verifier::ext_equal]
pub struct BookView {
    pub name: Seq<char>,
    pub testament: Testament,
    pub chapters: Seq<ChapterView>,
}

impl View for SectionHeading {
    type V = SectionHeadingView;

    open spec fn view(&self) -> SectionHeadingView {
        SectionHeadingView { heading: self.heading@ }
    }
}

impl View for Chapter {
    type V = ChapterView;

    open spec fn view(&self) -> ChapterView {
        ChapterView {
            chapter_number: self.chapter_number,
            sections: sections_view(self.sections@),
        }
    }
}

impl View for Book {
    type V = BookView;

    open spec fn view(&self) -> BookView {
        BookView {
            name: self.name@,
            testament: self.testament,
            chapters: chapters_view(self.chapters@),
        }
    }
}

/// The views of a list of section headings, in the same order.
pub open spec fn sections_view(sections: Seq<SectionHeading>) -> Seq<SectionHeadingView> {
    Seq::new(sections.len(), |i: int| sections[i]@)
}

/// The views of a list of chapters, in the same order.
pub open spec fn chapters_view(chapters: Seq<Chapter>) -> Seq<ChapterView> {
    Seq::new(chapters.len(), |i: int| chapters[i]@)
}

/// The view of a catalog: the views of its books, in the same order.
pub open spec fn catalog_view(books: Seq<Book>) -> Seq<BookView> {
    Seq::new(books.len(), |i: int| books[i]@)
}

impl ChapterView {
    /// A chapter has a positive number and at least one section.
    pub open spec fn wf(self) -> bool {
        self.chapter_number >= 1 && self.sections.len() >= 1
    }
}

impl BookView {
    /// A book has at least one chapter, and each of its chapters is well formed.
    pub open spec fn wf(self) -> bool {
        &&& self.chapters.len() >= 1
        &&& forall|i: int| 0 <= i < self.chapters.len() ==> (#[trigger] self.chapters[i]).wf()
    }
}

/// No two books of the catalog share a name.
pub open spec fn distinct_names(catalog: Seq<BookView>) -> bool {
    forall|i: int, j: int|
        0 <= i < j < catalog.len() ==> (#[trigger] catalog[i]).name != (#[trigger] catalog[j]).name
}

/// A catalog is well formed when each of its books is and no name occurs twice.
pub open spec fn catalog_wf(catalog: Seq<BookView>) -> bool {
    &&& forall|i: int| 0 <= i < catalog.len() ==> (#[trigger] catalog[i]).wf()
    &&& distinct_names(catalog)
}

/// The number of books of the catalog that belong to the given testament.
pub open spec fn books_in(catalog: Seq<BookView>, testament: Testament) -> nat
    decreases catalog.len(),
{
    if catalog.len() == 0 {
        0
    } else {
        books_in(catalog.drop_last(), testament) + if catalog.last().testament == testament {
            1nat
        } else {
            0nat
        }
    }
}

/// The count of a testament over two catalogs put one after the other is the
/// sum of the counts.
pub proof fn lemma_books_in_concat(a: Seq<BookView>, b: Seq<BookView>, testament: Testament)
    ensures
        books_in(a + b, testament) == books_in(a, testament) + books_in(b, testament),
    decreases b.len(),
{
    if b.len() == 0 {
        assert(a + b =~= a);
    } else {
        assert((a + b).drop_last() =~= a + b.drop_last());
        assert((a + b).last() == b.last());
        lemma_books_in_concat(a, b.drop_last(), testament);
    }
}

/// Where every book belongs to one testament, that testament counts every
/// book and the other one none.
pub proof fn lemma_books_in_uniform(
    catalog: Seq<BookView>,
    testament: Testament,
    counted: Testament,
)
    requires
        forall|i: int| 0 <= i < catalog.len() ==> (#[trigger] catalog[i]).testament == testament,
    ensures
        books_in(catalog, counted) == if counted == testament {
            catalog.len()
        } else {
            0
        },
    decreases catalog.len(),
{
    if catalog.len() > 0 {
        lemma_books_in_uniform(catalog.drop_last(), testament, counted);
    }
}

} // verus!
