use mdwiki::codec::convert_path_to_url;
use mdwiki::codec::convert_url_to_path;
use mdwiki::page::Page;
use mdwiki::wiki::Wiki;

#[test]
fn test_convert_path_to_url() {
    assert_eq!(
        convert_path_to_url("/wikidir", "/lol/what/a/path.md"),
        "/lol/what/a/path"
    )
}

#[test]
fn test_convert_url_to_path() {
    assert_eq!(
        convert_url_to_path("/wikidir", "/lol/what/a/path"),
        "/wikidir/lol/what/a/path.md"
    )
}

#[test]
fn codec_round_trips_for_paths_below_the_root() {
    let base = "/wikidir";
    let path = "/wikidir/notes/today.md";
    let url = convert_path_to_url(base, path);
    assert_eq!(url, "/notes/today");
    assert_eq!(convert_url_to_path(base, &url), path);
}

#[test]
fn codec_passes_foreign_paths_through() {
    // the root is not a prefix: the path passes through, minus `.md`
    assert_eq!(convert_path_to_url("/wikidir", "/elsewhere/x.md"), "/elsewhere/x");
    // no `.md` suffix: nothing is stripped
    assert_eq!(convert_path_to_url("/wikidir", "/wikidir/readme.txt"), "/readme.txt");
}

#[test]
fn loading_a_well_formed_file_populates_meta_and_html() {
    let raw = "---\ntitle: Test\n---\n# Hi\n";
    let page = Page::new_from_file(
        String::from("/w"),
        String::from("/w/a.md"),
        String::from(raw),
    );
    assert_eq!(page.url, "/a");
    assert_eq!(page.raw, raw);
    let meta = page.meta.as_ref().expect("metadata block should be parsed");
    assert_eq!(meta["title"].as_str(), Some("Test"));
    assert_eq!(page.markdown_raw, "# Hi\n");
    assert!(!page.html.is_empty());
    assert!(page.html.contains("Hi"));
}

#[test]
fn loading_a_file_without_delimiters_leaves_the_page_blank() {
    // soft-fail policy: absent meta, empty body and HTML
    let page = Page::new_from_file(
        String::from("/w"),
        String::from("/w/plain.md"),
        String::from("just some text, no markers anywhere\n"),
    );
    assert!(page.meta.is_none());
    assert_eq!(page.markdown_raw, "");
    assert_eq!(page.html, "");
}

#[test]
fn loading_a_file_with_broken_yaml_leaves_the_page_blank() {
    // a closed block whose YAML does not scan (unclosed flow sequence)
    let raw = "---\nkey: [unclosed\n---\nbody\n";
    let page = Page::new_from_file(
        String::from("/w"),
        String::from("/w/broken.md"),
        String::from(raw),
    );
    assert!(page.meta.is_none());
    assert_eq!(page.markdown_raw, "");
    assert_eq!(page.html, "");
}

#[test]
fn loading_an_empty_file_leaves_the_page_blank() {
    let page = Page::new_from_file(
        String::from("/w"),
        String::from("/w/empty.md"),
        String::new(),
    );
    assert!(page.meta.is_none());
    assert_eq!(page.markdown_raw, "");
    assert_eq!(page.html, "");
}

#[test]
fn serialize_then_reload_round_trips_meta_and_body() {
    let raw = "---\ntitle: Test\n---\n# Hi\n";
    let mut page = Page::new_from_file(
        String::from("/w"),
        String::from("/w/a.md"),
        String::from(raw),
    );
    assert!(page.meta.is_some());
    let meta_before = page.meta.clone();
    let markdown_before = page.markdown_raw.clone();

    // what save() would write to disk is exactly `raw` after this
    page.update_raw();
    let reloaded = Page::new_from_file(
        String::from("/w"),
        String::from("/w/a.md"),
        page.raw.clone(),
    );
    assert_eq!(reloaded.meta, meta_before);
    assert_eq!(reloaded.markdown_raw, markdown_before);
}

#[test]
fn serialize_without_meta_writes_bare_markers() {
    let mut page = Page::new_from_file(
        String::from("/w"),
        String::from("/w/empty.md"),
        String::new(),
    );
    page.update_markdown("plain body\n");
    page.update_raw();
    assert_eq!(page.raw, "---\n---\nplain body\n");
}

#[test]
fn update_markdown_renders_a_heading() {
    let mut page = Page::new_from_file(
        String::from("/w"),
        String::from("/w/a.md"),
        String::new(),
    );
    page.update_markdown("# Hi");
    assert_eq!(page.markdown_raw, "# Hi");
    assert!(page.html.contains("<h1"));
    assert!(page.html.contains("Hi"));
    assert!(!page.html.contains('#'));
}

#[test]
fn update_markdown_depends_only_on_the_new_body() {
    let mut a = Page::new_from_file(
        String::from("/w"),
        String::from("/w/a.md"),
        String::from("---\ntitle: A\n---\nold body of a\n"),
    );
    let mut b = Page::new_from_file(
        String::from("/w"),
        String::from("/w/b.md"),
        String::new(),
    );
    a.update_markdown("# Hi");
    b.update_markdown("# Hi");
    assert_eq!(a.html, b.html);
}

#[test]
fn wiki_skips_the_unreadable_file_and_keeps_the_valid_one() {
    let files: Vec<(String, Option<String>)> = vec![
        (
            String::from("/w/good.md"),
            Some(String::from("---\ntitle: Good\n---\nfine\n")),
        ),
        (String::from("/w/bad.md"), None),
    ];
    let wiki = Wiki::new("/w", &files);
    assert_eq!(wiki.pages.len(), 1);
    assert_eq!(wiki.pages[0].url, "/good");
    assert!(wiki.get("/good").is_some());
    assert!(wiki.get("/bad").is_none());
}

#[test]
fn wiki_ignores_files_without_the_markdown_suffix() {
    let files: Vec<(String, Option<String>)> = vec![
        (String::from("/w/notes.txt"), Some(String::from("text"))),
        (String::from("/w/page.md"), Some(String::from("text"))),
    ];
    let wiki = Wiki::new("/w", &files);
    assert_eq!(wiki.pages.len(), 1);
    assert_eq!(wiki.pages[0].path, "/w/page.md");
}

#[test]
fn get_returns_the_first_page_in_load_order() {
    // two distinct files that collide on the same URL after stripping
    let files: Vec<(String, Option<String>)> = vec![
        (
            String::from("/w/a.md"),
            Some(String::from("---\nn: 1\n---\nfirst\n")),
        ),
        (
            String::from("/w/a.md.md"),
            Some(String::from("---\nn: 2\n---\nsecond\n")),
        ),
    ];
    let wiki = Wiki::new("/w", &files);
    assert_eq!(wiki.pages.len(), 2);
    assert_eq!(wiki.pages[0].url, "/a");
    assert_eq!(wiki.pages[1].url, "/a.md");
    let hit = wiki.get("/a").expect("the first page carries /a");
    assert_eq!(hit.markdown_raw, "first\n");
    assert!(wiki.get("/missing").is_none());
}

#[test]
fn load_pages_replaces_the_old_collection() {
    let first: Vec<(String, Option<String>)> =
        vec![(String::from("/w/a.md"), Some(String::from("a")))];
    let second: Vec<(String, Option<String>)> = vec![
        (String::from("/w/b.md"), Some(String::from("b"))),
        (String::from("/w/c.md"), Some(String::from("c"))),
    ];
    let mut wiki = Wiki::new("/w", &first);
    assert_eq!(wiki.pages.len(), 1);
    wiki.load_pages(&second);
    assert_eq!(wiki.pages.len(), 2);
    assert_eq!(wiki.pages[0].url, "/b");
    assert_eq!(wiki.pages[1].url, "/c");
}

#[test]
fn loading_an_over_long_metadata_block_leaves_the_page_blank() {
    // the block (5000 bytes) closes beyond the cap the scanner is
    // trusted with, so the split is refused outright
    let mut raw = String::from("---\n");
    for i in 0..1000 {
        raw.push_str(&format!("k{}: {}\n", i, i));
    }
    assert!(raw.len() > 5000);
    raw.push_str("---\nbody\n");
    let page = Page::new_from_file(String::from("/w"), String::from("/w/big.md"), raw);
    assert!(page.meta.is_none());
    assert_eq!(page.markdown_raw, "");
    assert_eq!(page.html, "");
}

#[test]
fn deeply_nested_metadata_at_the_cap_loads_and_serializes() {
    // the worst case the cap admits: a block of exactly the cap's
    // size, nesting once per two characters; it loads, and the deep
    // document serializes again
    let mut raw = String::from("---\n");
    for _ in 0..255 {
        raw.push_str("- ");
    }
    raw.push_str("1\n---\nbody\n");
    let mut page = Page::new_from_file(String::from("/w"), String::from("/w/deep.md"), raw);
    assert!(page.meta.is_some());
    assert_eq!(page.markdown_raw, "body\n");
    page.update_raw();
    assert!(page.raw.starts_with("---\n"));
    assert!(page.raw.ends_with("---\nbody\n"));
}
