//! An in-memory wiki built from a tree of markdown files.
//!
//! Each markdown file becomes a [`page::Page`]: its frontmatter is split
//! off and kept as structured metadata, and the markdown body is rendered
//! to HTML.  A [`wiki::Wiki`] owns one page per discovered file and looks
//! pages up by a URL derived from the file's path.

pub mod codec;
pub mod facilities;
pub mod page;
pub mod wiki;
