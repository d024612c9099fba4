//! A wiki page: one markdown document together with its metadata, its
//! markdown body, and the HTML rendered from that body.
//!
//! A page is built from the text of its backing file.  The text is split
//! into an optional frontmatter block and a body; the body is rendered
//! to HTML at once, so the HTML is never stale.  When the split fails —
//! the text carries no closed frontmatter block, the block is longer
//! than the cap the scanner is trusted with, or the block's YAML does
//! not scan — the page stays blank: no metadata, empty body, empty
//! HTML.  That soft-fail is deliberate policy, not an error.

use vstd::prelude::*;
use crate::codec;
use crate::facilities;

verus! {

/// The serialized on-disk form of a page: a marker line, the metadata
/// text `m`, a closing marker line, then the body verbatim.
pub open spec fn framed(m: Seq<char>, body: Seq<char>) -> Seq<char> {
    facilities::fm_delim() + m + facilities::fm_delim() + body
}

/// Builds the serialized form of a page out of the metadata text as
/// the emitter returned it — its document-start marker line is dropped
/// — and the markdown body: a marker line, the metadata text where
/// present, a closing marker line, then the body verbatim.
fn build_raw(emitted: &Option<String>, markdown: &str) -> (r: String)
    requires
        emitted matches Some(s) ==> facilities::fm_delim().is_prefix_of(s@),
    ensures
        emitted matches Some(s) ==> r@ == framed(
            s@.skip(facilities::fm_delim().len() as int) + "\n"@,
            markdown@,
        ),
        emitted is None ==> r@ == framed(Seq::<char>::empty(), markdown@),
{
    let mut buffer = String::new();
    buffer.append("---\n");
    match emitted {
        Some(meta_str) => {
            proof {
                reveal_strlit("---\n");
            }
            let n = meta_str.as_str().unicode_len();
            let tail = meta_str.as_str().substring_char(4, n);
            buffer.append(tail);
            buffer.append("\n");
            proof {
                assert(tail@ =~= meta_str@.skip(facilities::fm_delim().len() as int));
            }
        },
        None => {},
    }
    buffer.append("---\n");
    buffer.append(markdown);
    proof {
        if emitted is Some {
            let s = emitted.unwrap()@;
            assert(buffer@ =~= framed(s.skip(facilities::fm_delim().len() as int) + "\n"@, markdown@));
        } else {
            assert(buffer@ =~= framed(Seq::<char>::empty(), markdown@));
        }
    }
    buffer
}

/// What a markdown body renders to: the empty document renders to the
/// empty string — the renderer is never asked for an output it cannot
/// hand back — and every other body to the facility's HTML for it.
pub open spec fn rendered(md: Seq<char>) -> Seq<char> {
    if md.len() == 0 {
        Seq::empty()
    } else {
        facilities::html_of(md)
    }
}

/// Does a closing marker line stand within the block cap of `s`?  The
/// scan reads only the window the cap admits, so an over-long block is
/// rejected without looking at the rest of the text.
fn close_marker_within_cap(s: &str) -> (r: bool)
    ensures
        r == facilities::close_within_cap(s@),
{
    proof {
        reveal_strlit("---\n");
    }
    let n = s.unicode_len();
    let mut j: usize = 4;
    while j + 4 <= n && j <= facilities::FM_BLOCK_CAP + 4
        invariant
            n == s@.len(),
            4 <= j <= facilities::FM_BLOCK_CAP + 5,
            forall|k: int| 4 <= k < j ==> !facilities::fm_close_at(s@, k),
        decreases facilities::FM_BLOCK_CAP + 5 - j,
    {
        if s.get_char(j) == '-' && s.get_char(j + 1) == '-' && s.get_char(j + 2) == '-'
            && s.get_char(j + 3) == '\n' {
            proof {
                reveal_strlit("---\n");
                assert(s@.subrange(j as int, j as int + 4) =~= facilities::fm_delim());
                assert(facilities::fm_close_at(s@, j as int));
            }
            return true;
        }
        proof {
            reveal_strlit("---\n");
            if facilities::fm_close_at(s@, j as int) {
                assert(s@.subrange(j as int, j as int + 4)[0] == s@[j as int]);
                assert(s@.subrange(j as int, j as int + 4)[1] == s@[j as int + 1]);
                assert(s@.subrange(j as int, j as int + 4)[2] == s@[j as int + 2]);
                assert(s@.subrange(j as int, j as int + 4)[3] == s@[j as int + 3]);
            }
        }
        j += 1;
    }
    proof {
        reveal_strlit("---\n");
        if facilities::close_within_cap(s@) {
            let k = choose|k: int|
                facilities::fm_close_at(s@, k) && k <= facilities::FM_BLOCK_CAP
                    + facilities::fm_delim().len();
            assert(k < j);
            assert(false);
        }
    }
    false
}

/// A single page within the wiki, which is backed by a markdown file
/// on disk.
pub struct Page {
    /// the root path of the wiki this page is a part of
    pub base_path: String,
    /// the path to the page's backing file
    pub path: String,
    /// the url of this page: the relative path of the file minus the
    /// file extension
    pub url: String,
    /// the raw text of the file, as last read from disk or rebuilt for
    /// writing; may be empty before the first rebuild
    pub raw: String,
    /// the YAML frontmatter; absent when the file had none or the block
    /// failed to parse
    pub meta: Option<yaml_rust::Yaml>,
    /// the raw markdown body of the page, might be an empty string
    pub markdown_raw: String,
    /// the compiled HTML of the page
    pub html: String,
}

impl Page {
    /// The page's URL is the one the codec derives from its root and
    /// its path.
    pub open spec fn url_consistent(self) -> bool {
        self.url@ == codec::path_to_url(self.base_path@, self.path@)
    }

    /// The page's HTML is the rendering of its current markdown body.
    pub open spec fn html_current(self) -> bool {
        self.html@ == rendered(self.markdown_raw@)
    }

    /// The soft-failed state: no metadata, empty body, empty HTML.
    pub open spec fn is_blank(self) -> bool {
        &&& self.meta is None
        &&& self.markdown_raw@ == Seq::<char>::empty()
        &&& self.html@ == Seq::<char>::empty()
    }

    /// What interpreting the text `raw` for the file at `path` below
    /// `base_path` must yield: the named locations, the derived URL,
    /// HTML that matches the body, and one of four outcomes — no
    /// frontmatter block, a block beyond the cap, or a block the
    /// scanner refuses leaves the page blank; a block within the cap
    /// that the scanner accepts makes the rest of the text the body,
    /// with metadata exactly when the block yields a document.
    pub open spec fn loaded_from(self, base_path: String, path: String, raw: String) -> bool {
        &&& self.base_path == base_path
        &&& self.path == path
        &&& self.raw == raw
        &&& self.url_consistent()
        &&& self.html_current()
        &&& !facilities::has_front_matter(raw@) ==> self.is_blank()
        &&& facilities::has_front_matter(raw@) && !facilities::close_within_cap(raw@)
            ==> self.is_blank()
        &&& facilities::has_front_matter(raw@) && !facilities::fm_scan_ok(raw@)
            ==> self.is_blank()
        &&& facilities::has_front_matter(raw@) && facilities::close_within_cap(raw@)
            && facilities::fm_scan_ok(raw@) ==> self.markdown_raw@ == facilities::fm_body_of(
            raw@,
        ) && (self.meta is Some <==> facilities::fm_doc_present(raw@))
    }

    /// Creates a new `Page` for the file at `path` below `base_path`,
    /// from the text `raw` read out of that file, and interprets the
    /// text: the frontmatter block becomes the metadata and the rest of
    /// the text becomes the markdown body, rendered to HTML at once.
    /// On any split failure the page stays blank.
    pub fn new_from_file(base_path: String, path: String, raw: String) -> (page: Page)
        ensures
            page.loaded_from(base_path, path, raw),
    {
        let url = codec::convert_path_to_url(base_path.as_str(), path.as_str());
        let mut page = Page {
            base_path,
            path,
            url,
            raw,
            meta: None,
            markdown_raw: String::new(),
            html: String::new(),
        };
        page.load();
        page
    }

    /// Interprets the raw text, splitting the frontmatter off and
    /// rendering the markdown that remains; leaves the page untouched
    /// on any split failure.
    fn load(&mut self)
        requires
            old(self).meta is None,
            old(self).markdown_raw@ == Seq::<char>::empty(),
            old(self).html@ == Seq::<char>::empty(),
        ensures
            final(self).base_path == old(self).base_path,
            final(self).path == old(self).path,
            final(self).url == old(self).url,
            final(self).raw == old(self).raw,
            final(self).html_current(),
            !facilities::has_front_matter(old(self).raw@) ==> final(self).is_blank(),
            facilities::has_front_matter(old(self).raw@) && !facilities::close_within_cap(
                old(self).raw@,
            ) ==> final(self).is_blank(),
            facilities::has_front_matter(old(self).raw@) && !facilities::fm_scan_ok(
                old(self).raw@,
            ) ==> final(self).is_blank(),
            facilities::has_front_matter(old(self).raw@) && facilities::close_within_cap(
                old(self).raw@,
            ) && facilities::fm_scan_ok(old(self).raw@) ==> final(self).markdown_raw@
                == facilities::fm_body_of(old(self).raw@) && (final(self).meta is Some
                <==> facilities::fm_doc_present(old(self).raw@)),
    {
        // an over-long block would be handed to the scanner otherwise;
        // without an opening marker line no block exists and the
        // facility only hands the text back
        let within = close_marker_within_cap(self.raw.as_str());
        let opens = codec::str_starts_with(self.raw.as_str(), "---\n");
        if within || !opens {
            let outcome = facilities::parse_front_matter(self.raw.as_str());
            self.apply_split(outcome);
        }
    }

    /// Applies one outcome of the frontmatter split to the page: a
    /// split that found a block — its body is strictly shorter than
    /// the whole text — stores the metadata and renders the body;
    /// every other outcome leaves the page as it was.
    fn apply_split(
        &mut self,
        outcome: Result<(Option<yaml_rust::Yaml>, String), yaml_rust::ScanError>,
    )
        ensures
            final(self).base_path == old(self).base_path,
            final(self).path == old(self).path,
            final(self).url == old(self).url,
            final(self).raw == old(self).raw,
            outcome matches Ok(p) ==> p.1@.len() < old(self).raw@.len() ==> final(self).meta
                == p.0 && final(self).markdown_raw@ == p.1@ && final(self).html@ == rendered(
                p.1@,
            ),
            outcome matches Ok(p) ==> p.1@.len() >= old(self).raw@.len() ==> *final(self) == *old(
                self,
            ),
            outcome is Err ==> *final(self) == *old(self),
    {
        match outcome {
            Ok((meta, body)) => {
                // a body as long as the whole text means no frontmatter
                // block was found: keep the page as it is
                if body.as_str().unicode_len() < self.raw.as_str().unicode_len() {
                    self.meta = meta;
                    self.update_markdown(body.as_str());
                }
            },
            Err(_) => {},
        }
    }

    /// Updates the markdown contents of the page and re-renders the
    /// HTML at once, so the HTML depends on nothing but the new body.
    pub fn update_markdown(&mut self, markdown: &str)
        ensures
            final(self).markdown_raw@ == markdown@,
            final(self).html@ == rendered(markdown@),
            final(self).base_path == old(self).base_path,
            final(self).path == old(self).path,
            final(self).url == old(self).url,
            final(self).raw == old(self).raw,
            final(self).meta == old(self).meta,
    {
        self.markdown_raw = String::from_str(markdown);
        self.html = facilities::render_html(markdown);
    }

    /// Rebuilds the raw on-disk representation from the page's current
    /// state: a marker line, the encoded metadata where present or
    /// nothing, a closing marker line, then the markdown body verbatim.
    /// Use this after having modified the page, before writing it out.
    pub fn update_raw(&mut self)
        ensures
            final(self).base_path == old(self).base_path,
            final(self).path == old(self).path,
            final(self).url == old(self).url,
            final(self).meta == old(self).meta,
            final(self).markdown_raw == old(self).markdown_raw,
            final(self).html == old(self).html,
            exists|m: Seq<char>|
                final(self).raw@ == #[trigger] framed(m, old(self).markdown_raw@),
            old(self).meta is None ==> final(self).raw@ == framed(
                Seq::<char>::empty(),
                old(self).markdown_raw@,
            ),
            old(self).meta is Some ==> exists|em: Seq<char>|
                #[trigger] facilities::fm_delim().is_prefix_of(em) && final(self).raw@ == framed(
                    em.skip(facilities::fm_delim().len() as int) + "\n"@,
                    old(self).markdown_raw@,
                ),
    {
        let emitted = match &self.meta {
            Some(yaml) => facilities::emit_yaml(yaml),
            None => None,
        };
        let buffer = build_raw(&emitted, self.markdown_raw.as_str());
        self.raw = buffer;
        proof {
            if emitted is Some {
                let em = emitted.unwrap()@;
                assert(facilities::fm_delim().is_prefix_of(em) && self.raw@ == framed(
                    em.skip(facilities::fm_delim().len() as int) + "\n"@,
                    self.markdown_raw@,
                ));
            } else {
                assert(self.raw@ == framed(Seq::<char>::empty(), self.markdown_raw@));
            }
        }
    }
}

} // verus!
