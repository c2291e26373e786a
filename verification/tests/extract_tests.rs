use bunkr_spider::controller::BunkrSpider;
use bunkr_spider::extract::extract_pages;
use bunkr_spider::extract::read_page_markers;

fn head(meta5: Option<&str>, meta6: Option<&str>, meta7: Option<&str>) -> String {
    let mut h = String::from("<head><meta><meta><meta><meta>");
    match meta5 {
        Some(v) => h.push_str(&format!("<meta content=\"{}\">", v)),
        None => {}
    }
    match meta6 {
        Some(v) => h.push_str(&format!("<meta content=\"{}\">", v)),
        None => {}
    }
    match meta7 {
        Some(v) => h.push_str(&format!("<meta content=\"{}\">", v)),
        None => {}
    }
    h.push_str("</head>");
    h
}

fn image_page(meta5: &str, meta6: &str, src: &str) -> String {
    let mut page = String::from("<html>");
    page.push_str(&head(Some(meta5), Some(meta6), None));
    page.push_str("<body>");
    for _ in 0..10 {
        page.push_str("<div></div>");
    }
    page.push_str(&format!(
        "<main><figure><img class=\"max-h-full w-auto object-cover relative z-20\" src=\"{}\"></figure></main>",
        src
    ));
    page.push_str("</body></html>");
    page
}

fn plain_page(meta5: Option<&str>, meta6: Option<&str>, meta7: Option<&str>) -> String {
    format!("<html>{}<body></body></html>", head(meta5, meta6, meta7))
}

#[test]
fn untyped_and_website_pages_contribute_nothing() {
    let pages = vec![
        plain_page(None, Some("x.jpg"), None),
        plain_page(Some("website"), Some("x.jpg"), None),
        plain_page(Some(""), Some("x.jpg"), None),
    ];
    let mut markers = Vec::new();
    for p in &pages {
        markers.push(read_page_markers(p));
    }
    let extraction = extract_pages(&markers);
    assert_eq!(extraction.sources.len(), 0);
    assert_eq!(extraction.title, "");
}

#[test]
fn album_page_records_sanitized_title() {
    let markers = vec![read_page_markers(&plain_page(
        Some("album"),
        Some("My: Album?"),
        None,
    ))];
    let extraction = extract_pages(&markers);
    assert_eq!(extraction.title, "My_ Album_");
    assert_eq!(extraction.sources.len(), 0);
}

#[test]
fn image_page_uses_preview_src() {
    let markers = vec![read_page_markers(&image_page(
        "picture",
        "photo.jpg",
        "https://files.example.su/photo.jpg",
    ))];
    let extraction = extract_pages(&markers);
    assert_eq!(extraction.sources.len(), 1);
    assert_eq!(extraction.sources[0].name, "photo.jpg");
    assert_eq!(extraction.sources[0].url, "https://files.example.su/photo.jpg");
}

#[test]
fn image_page_with_empty_src_is_skipped() {
    let markers = vec![read_page_markers(&image_page("picture", "photo.jpg", ""))];
    let extraction = extract_pages(&markers);
    assert_eq!(extraction.sources.len(), 0);
}

#[test]
fn video_page_reconstructs_url_from_thumbnail() {
    let markers = vec![read_page_markers(&plain_page(
        Some("video"),
        Some("clip.mp4"),
        Some("https://i-kebab.example.su/thumbs/ab12/clip.mp4.png"),
    ))];
    let extraction = extract_pages(&markers);
    assert_eq!(extraction.sources.len(), 1);
    assert_eq!(extraction.sources[0].name, "clip.mp4");
    assert_eq!(extraction.sources[0].url, "https://kebab.example.su/ab12/clip.mp4");
}

#[test]
fn run_collects_album_and_sources_in_order() {
    let pages = vec![
        plain_page(Some("album"), Some("Holiday: 2024"), None),
        plain_page(Some("website"), Some("nav"), None),
        image_page("picture", "a.png", "https://files.example.su/a.png"),
        plain_page(
            Some("video"),
            Some("b.mov"),
            Some("https://i-host.example.su/thumbs/cd/b.mov.png"),
        ),
    ];
    let mut spider = BunkrSpider::new();
    let info = spider.run(String::from("/data"), "https://example.su/album?x=1", &pages);
    assert_eq!(spider.url, "https://example.su/album");
    assert_eq!(spider.title, "Holiday_ 2024");
    assert_eq!(spider.base_dir, "/data");
    assert_eq!(spider.sources.len(), 2);
    assert_eq!(spider.sources[0].name, "a.png");
    assert_eq!(spider.sources[0].url, "https://files.example.su/a.png");
    assert_eq!(spider.sources[1].name, "b.mov");
    assert_eq!(spider.sources[1].url, "https://host.example.su/cd/b.mov");
    assert_eq!(info.total_sources, Some(2));
    assert_eq!(info.downloaded_sources, Some(0));
    assert!(matches!(
        info.state,
        bunkr_spider::progress::BunkrSpiderState::Analyzing
    ));
}
