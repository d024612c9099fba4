//! Trusted bindings to the outside facilities the wiki collaborates
//! with: the frontmatter splitter, the YAML emitter, and the markdown
//! renderer.  Every contract in this module is believed, not proved;
//! each states only what the facility's own source shows.

use vstd::prelude::*;
use hoedown::Render;

verus! {

/// A YAML document, as the metadata facility produces it.  The wiki
/// carries such values through unchanged; it never looks inside one.
#[verifier::external_type_specification]
#[verifier::external_body]
pub struct ExYaml(yaml_rust::Yaml);

/// The error the YAML scanner reports for a frontmatter block it cannot
/// read.  The wiki swallows it; it never looks inside one.
#[verifier::external_type_specification]
#[verifier::external_body]
pub struct ExScanError(yaml_rust::ScanError);

/// The marker line that opens and closes a frontmatter block.
pub open spec fn fm_delim() -> Seq<char> {
    "---\n"@
}

/// The longest frontmatter block the library hands to the YAML
/// scanner.  The loader and the emitter recurse once per nesting level
/// and a block can nest once per two characters, so an unbounded block
/// could exhaust the stack; a block this size nests at most 256 levels
/// deep, half the depth this environment is seen to take in stride.
pub const FM_BLOCK_CAP: usize = 512;

/// Does a closing marker line stand at position `j` of `s` (past the
/// opening marker line)?
pub open spec fn fm_close_at(s: Seq<char>, j: int) -> bool {
    &&& fm_delim().len() <= j
    &&& j + fm_delim().len() <= s.len()
    &&& s.subrange(j, j + fm_delim().len()) =~= fm_delim()
}

/// Does `s` carry a frontmatter block: does it open with a marker line,
/// closed by a second marker line further on?
pub open spec fn has_front_matter(s: Seq<char>) -> bool {
    &&& fm_delim().is_prefix_of(s)
    &&& exists|j: int| #[trigger] fm_close_at(s, j)
}

/// Does a closing marker line stand early enough that the block it
/// closes is no longer than the cap?
pub open spec fn close_within_cap(s: Seq<char>) -> bool {
    exists|j: int| #[trigger] fm_close_at(s, j) && j <= FM_BLOCK_CAP + fm_delim().len()
}

/// The document body that the frontmatter facility hands back for a
/// given raw text; the split depends on the text alone.
pub uninterp spec fn fm_body_of(s: Seq<char>) -> Seq<char>;

/// Does the YAML scanner accept the frontmatter block of `s`?  Only
/// meaningful where `s` carries a block; scanning depends on the text
/// alone.
pub uninterp spec fn fm_scan_ok(s: Seq<char>) -> bool;

/// Does the frontmatter block of `s` yield a metadata document?  An
/// empty block yields none; only meaningful where `s` carries a block
/// the scanner accepts, and a function of the text alone.
pub uninterp spec fn fm_doc_present(s: Seq<char>) -> bool;

/// The HTML that the markdown facility renders for a given markdown
/// text; the rendering depends on the text alone.
pub uninterp spec fn html_of(md: Seq<char>) -> Seq<char>;

/// Relies on `frontmatter::parse_and_find_content`: on text that does
/// not open with a closed frontmatter block it returns the whole text
/// and no metadata; where a block is present, the body it returns is
/// what follows the closing marker, strictly shorter than the input,
/// the metadata is present exactly when the block yields a document,
/// and the one error is a block whose YAML does not scan.  The YAML
/// loader recurses once per nesting level of the block with no depth
/// cap of its own, so the contract is believed only of blocks within
/// [`FM_BLOCK_CAP`]; the caller keeps longer blocks away from it.
#[verifier::external_body]
pub(crate) fn parse_front_matter(text: &str) -> (r: Result<
    (Option<yaml_rust::Yaml>, String),
    yaml_rust::ScanError,
>)
    requires
        has_front_matter(text@) ==> close_within_cap(text@),
    ensures
        r matches Ok(p) ==> p.1@ == fm_body_of(text@),
        r is Err ==> has_front_matter(text@) && !fm_scan_ok(text@),
        r is Ok ==> has_front_matter(text@) ==> fm_scan_ok(text@),
        r matches Ok(p) ==> !has_front_matter(text@) ==> p.0 is None && p.1@ == text@,
        r matches Ok(p) ==> has_front_matter(text@) ==> p.1@.len() < text@.len(),
        r matches Ok(p) ==> has_front_matter(text@) ==> (p.0 is Some <==> fm_doc_present(text@)),
{
    match frontmatter::parse_and_find_content(text) {
        Ok((meta, body)) => Ok((meta, String::from(body))),
        Err(e) => Err(e),
    }
}

/// Relies on `yaml_rust::YamlEmitter::dump` writing into an in-memory
/// string: it first writes the document-start marker line, then the
/// encoded document.  Emission into a string cannot fail in this
/// version — the string formatter is infallible and no other error is
/// ever produced — so this always returns the text.  The emitter
/// recurses once per nesting level of the document, so the contract is
/// believed of documents whose nesting its stack accommodates: that
/// covers everything the library's own capped parse admits, and no
/// condition on the opaque document can be stated here.
#[verifier::external_body]
pub(crate) fn emit_yaml(meta: &yaml_rust::Yaml) -> (r: Option<String>)
    ensures
        r is Some,
        r matches Some(s) ==> fm_delim().is_prefix_of(s@),
{
    let mut out = String::new();
    let res = yaml_rust::YamlEmitter::new(&mut out).dump(meta);
    match res {
        Ok(()) => Some(out),
        Err(_) => None,
    }
}

/// Relies on hoedown's HTML renderer (`Html::new` with empty flags and
/// `Markdown::new`, as one fixed configuration): the rendered HTML
/// depends on the markdown text alone, and a text the renderer
/// collects nothing from — the empty document among others — renders
/// to the empty string.  An empty output buffer cannot be sliced (its
/// data pointer is null), so that case is converted by hand.
#[verifier::external_body]
pub(crate) fn render_html(markdown: &str) -> (r: String)
    ensures
        r@ == html_of(markdown@),
        markdown@.len() == 0 ==> r@.len() == 0,
{
    let mut html = hoedown::Html::new(hoedown::renderer::html::Flags::empty(), 0);
    let doc = hoedown::Markdown::new(markdown);
    let out = html.render(&doc);
    if out.is_empty() {
        String::new()
    } else {
        String::from(out.to_str().unwrap_or(""))
    }
}

} // verus!
