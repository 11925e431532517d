//! A static catalog of the books of the Bible with their chapters and
//! section headings, together with the two renderings served from it:
//! an HTML page and a JSON document.

pub mod canon;
pub mod canonical;
pub mod catalog;
pub mod grammar;
pub mod html;
pub mod json;
pub mod model;
pub mod reader;
pub mod roundtrip;
pub mod template;
pub mod text;

pub use catalog::{create_placeholder_book, get_bible_data};
pub use html::generate_html;
pub use json::to_json;
pub use model::{Book, Chapter, SectionHeading, Testament};
pub use reader::from_json;
