//! The wiki: a collection of pages built from the markdown files found
//! below one root directory, addressed by URL.
//!
//! The wiki itself does no I/O.  The caller walks the directory tree
//! and hands in one entry per regular file: its path, and its text
//! where the file could be read as text.  Every readable entry whose
//! path ends in `.md` becomes a page; every other entry is skipped, so
//! one unreadable file never aborts a load.

use vstd::prelude::*;
use crate::codec;
use crate::page::Page;

verus! {

/// One regular file below the root: its path, and its text where the
/// file could be read as text.
pub type FileEntry = (String, Option<String>);

/// Is this entry one the wiki materializes: a readable markdown file?
pub open spec fn loadable(entry: FileEntry) -> bool {
    codec::has_md_suffix(entry.0@) && entry.1 is Some
}

/// The loadable entries among `entries`, in order.
pub open spec fn loadable_entries(entries: Seq<FileEntry>) -> Seq<FileEntry>
    decreases entries.len(),
{
    if entries.len() == 0 {
        Seq::empty()
    } else if loadable(entries.last()) {
        loadable_entries(entries.drop_last()).push(entries.last())
    } else {
        loadable_entries(entries.drop_last())
    }
}

/// Are two strings equal, character for character?
fn str_equal(a: &str, b: &str) -> (r: bool)
    ensures
        r == (a@ == b@),
{
    let n = a.unicode_len();
    let m = b.unicode_len();
    if n != m {
        return false;
    }
    let mut i: usize = 0;
    while i < n
        invariant
            n == a@.len(),
            n == b@.len(),
            0 <= i <= n,
            forall|j: int| 0 <= j < i ==> a@[j] == b@[j],
        decreases n - i,
    {
        if a.get_char(i) != b.get_char(i) {
            return false;
        }
        i += 1;
    }
    proof {
        assert(a@ =~= b@);
    }
    true
}

/// A wiki object.
pub struct Wiki {
    /// the root path of the wiki
    pub path: String,
    /// the pages that are contained in this wiki
    pub pages: Vec<Page>,
}

impl Wiki {
    /// The pages are exactly the loadable entries of `files`, in
    /// order, each one loaded from its file's text.
    pub open spec fn pages_loaded_from(self, files: Seq<FileEntry>) -> bool {
        let kept = loadable_entries(files);
        &&& self.pages@.len() == kept.len()
        &&& forall|i: int|
            0 <= i < kept.len() ==> #[trigger] self.pages@[i].loaded_from(
                self.path,
                kept[i].0,
                kept[i].1.unwrap(),
            )
    }

    /// No page among the first `n` carries the URL `url`.
    pub open spec fn no_match_before(self, url: Seq<char>, n: int) -> bool {
        forall|j: int| 0 <= j < n ==> self.pages@[j].url@ != url
    }

    /// Creates a new `Wiki` object rooted at `pathname` and loads all
    /// the pages that are contained.  `files` holds one entry per
    /// regular file found below the root, in traversal order.
    pub fn new(pathname: &str, files: &Vec<FileEntry>) -> (wiki: Wiki)
        ensures
            wiki.path@ == pathname@,
            wiki.pages_loaded_from(files@),
    {
        let mut wiki = Wiki { path: String::from_str(pathname), pages: Vec::new() };
        wiki.load_pages(files);
        wiki
    }

    /// Load all the pages in the wiki, dropping whatever pages it held
    /// before: one page per loadable entry of `files`, in order.
    pub fn load_pages(&mut self, files: &Vec<FileEntry>)
        ensures
            final(self).path == old(self).path,
            final(self).pages_loaded_from(files@),
    {
        // make sure we do not duplicate pages by dropping the old
        // collection first
        self.pages = Vec::new();
        let mut i: usize = 0;
        while i < files.len()
            invariant
                self.path == old(self).path,
                i <= files@.len(),
                self.pages_loaded_from(files@.take(i as int)),
            decreases files@.len() - i,
        {
            match &files[i].1 {
                Some(raw) => {
                    if codec::str_has_md_suffix(files[i].0.as_str()) {
                        let page = Page::new_from_file(
                            self.path.clone(),
                            files[i].0.clone(),
                            raw.clone(),
                        );
                        self.pages.push(page);
                    }
                },
                None => {},
            }
            proof {
                let pre = files@.take(i as int);
                let post = files@.take(i as int + 1);
                assert(post.drop_last() =~= pre);
                assert(post.last() == files@[i as int]);
                assert(loadable_entries(post) == if loadable(files@[i as int]) {
                    loadable_entries(pre).push(files@[i as int])
                } else {
                    loadable_entries(pre)
                });
            }
            i += 1;
        }
        proof {
            assert(files@.take(files@.len() as int) =~= files@);
        }
    }

    /// Will get an individual page object given a URL: the first page
    /// in load order whose URL is `url`, or nothing when no page
    /// carries it.
    pub fn get(&self, url: &str) -> (r: Option<&Page>)
        ensures
            r matches Some(page) ==> exists|i: int|
                0 <= i < self.pages@.len() && *page == #[trigger] self.pages@[i] && page.url@
                    == url@ && self.no_match_before(url@, i),
            r is None ==> self.no_match_before(url@, self.pages@.len() as int),
    {
        let mut i: usize = 0;
        while i < self.pages.len()
            invariant
                i <= self.pages@.len(),
                self.no_match_before(url@, i as int),
            decreases self.pages@.len() - i,
        {
            if str_equal(self.pages[i].url.as_str(), url) {
                return Some(&self.pages[i]);
            }
            i += 1;
        }
        None
    }
}

} // verus!
