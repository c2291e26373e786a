//! Turns crawled page documents into an album title and an ordered list of
//! downloadable sources. The site marks each page with meta elements at
//! fixed positions in the document head; reading them goes through
//! `scraper`, and everything after that read is verified decision logic.

use vstd::prelude::*;
use vstd::string::StrSliceExecFns;
use crate::paths::sanitize_spec;
use crate::paths::sanitize_filename;
use crate::text::str_eq;
use crate::urls::extension_of;
use crate::urls::derive_extension;
use crate::urls::reconstruct_spec;
use crate::urls::reconstruct_video_url;

verus! {

/// The `content` attribute of the content-type marker (the fifth
/// `head > meta` element), when that element is present.
pub uninterp spec fn meta_type_of(html: Seq<char>) -> Option<Seq<char>>;

/// The `content` attribute of the title marker (the sixth `head > meta`
/// element), when that element is present.
pub uninterp spec fn meta_title_of(html: Seq<char>) -> Option<Seq<char>>;

/// The `content` attribute of the secondary thumbnail marker (the seventh
/// `head > meta` element), when that element is present.
pub uninterp spec fn thumb_marker_of(html: Seq<char>) -> Option<Seq<char>>;

/// The `src` attribute of the single large preview image element, when
/// that element is present.
pub uninterp spec fn preview_src_of(html: Seq<char>) -> Option<Seq<char>>;

pub open spec fn opt_str_view(o: Option<String>) -> Option<Seq<char>> {
    match o {
        Some(s) => Some(s@),
        None => None,
    }
}

/// The four markers of one page. `None` records that the page has no such
/// element; an element whose attribute is missing reads as an empty value.
pub struct PageMarkers {
    pub meta_type: Option<String>,
    pub meta_title: Option<String>,
    pub thumb_marker: Option<String>,
    pub preview_src: Option<String>,
}

pub struct PageView {
    pub meta_type: Option<Seq<char>>,
    pub meta_title: Option<Seq<char>>,
    pub thumb_marker: Option<Seq<char>>,
    pub preview_src: Option<Seq<char>>,
}

impl View for PageMarkers {
    type V = PageView;

    open spec fn view(&self) -> PageView {
        PageView {
            meta_type: opt_str_view(self.meta_type),
            meta_title: opt_str_view(self.meta_title),
            thumb_marker: opt_str_view(self.thumb_marker),
            preview_src: opt_str_view(self.preview_src),
        }
    }
}

/// The markers of a page as a function of its HTML text alone.
pub open spec fn page_view_of(html: Seq<char>) -> PageView {
    PageView {
        meta_type: meta_type_of(html),
        meta_title: meta_title_of(html),
        thumb_marker: thumb_marker_of(html),
        preview_src: preview_src_of(html),
    }
}

/// Relies on scraper's `Html::parse_document`, `Selector::parse` and
/// `select`: the content attribute of the fifth `head > meta` element
/// depends on the HTML text alone.
#[verifier::external_body]
fn read_meta_type(html: &str) -> (r: Option<String>)
    ensures
        opt_str_view(r) == meta_type_of(html@),
{
    let document = scraper::Html::parse_document(html);
    let selector = scraper::Selector::parse("head > meta:nth-child(5)").unwrap();
    document.select(&selector).next().map(|e| e.value().attr("content").unwrap_or("").to_string())
}

/// Relies on scraper's `Html::parse_document`, `Selector::parse` and
/// `select`: the content attribute of the sixth `head > meta` element
/// depends on the HTML text alone.
#[verifier::external_body]
fn read_meta_title(html: &str) -> (r: Option<String>)
    ensures
        opt_str_view(r) == meta_title_of(html@),
{
    let document = scraper::Html::parse_document(html);
    let selector = scraper::Selector::parse("head > meta:nth-child(6)").unwrap();
    document.select(&selector).next().map(|e| e.value().attr("content").unwrap_or("").to_string())
}

/// Relies on scraper's `Html::parse_document`, `Selector::parse` and
/// `select`: the content attribute of the seventh `head > meta` element
/// depends on the HTML text alone.
#[verifier::external_body]
fn read_thumb_marker(html: &str) -> (r: Option<String>)
    ensures
        opt_str_view(r) == thumb_marker_of(html@),
{
    let document = scraper::Html::parse_document(html);
    let selector = scraper::Selector::parse("head > meta:nth-child(7)").unwrap();
    document.select(&selector).next().map(|e| e.value().attr("content").unwrap_or("").to_string())
}

/// Relies on scraper's `Html::parse_document`, `Selector::parse` and
/// `select`: the src attribute of the single large preview image element
/// depends on the HTML text alone.
#[verifier::external_body]
fn read_preview_src(html: &str) -> (r: Option<String>)
    ensures
        opt_str_view(r) == preview_src_of(html@),
{
    let document = scraper::Html::parse_document(html);
    let selector = scraper::Selector::parse(
        "body > main:nth-child(11) > figure > img.max-h-full.w-auto.object-cover.relative.z-20",
    ).unwrap();
    document.select(&selector).next().map(|e| e.value().attr("src").unwrap_or("").to_string())
}

/// Reads the four markers of one page.
pub fn read_page_markers(html: &str) -> (r: PageMarkers)
    ensures
        r@ == page_view_of(html@),
{
    PageMarkers {
        meta_type: read_meta_type(html),
        meta_title: read_meta_title(html),
        thumb_marker: read_thumb_marker(html),
        preview_src: read_preview_src(html),
    }
}

/// One downloadable asset: a display title and a fully qualified URL.
#[derive(Clone)]
pub struct SourceDescriptor {
    pub name: String,
    pub url: String,
}

impl View for SourceDescriptor {
    type V = (Seq<char>, Seq<char>);

    open spec fn view(&self) -> (Seq<char>, Seq<char>) {
        (self.name@, self.url@)
    }
}

pub open spec fn is_image_ext(e: Seq<char>) -> bool {
    e == ".jpg"@ || e == ".png"@ || e == ".gif"@ || e == ".jpeg"@
}

/// The album title that one page records, given whether a title was still
/// missing when the page was reached: only a page typed `album` whose
/// sanitized title is nonempty records one.
pub open spec fn page_title_record(p: PageView, title_empty: bool) -> Option<Seq<char>> {
    match (p.meta_type, p.meta_title) {
        (Some(t), Some(title)) => {
            if t.len() != 0 && t != "website"@ && t == "album"@ && title_empty && sanitize_spec(
                title,
            ).len() != 0 {
                Some(sanitize_spec(title))
            } else {
                None
            }
        },
        _ => None,
    }
}

/// The source that one page contributes: pages without a content-type
/// marker, or typed `website` or `album`, contribute none; image pages use
/// the preview element's nonempty src; every other page reconstructs the
/// asset URL from the thumbnail marker.
pub open spec fn page_source(p: PageView) -> Option<(Seq<char>, Seq<char>)> {
    match (p.meta_type, p.meta_title) {
        (Some(t), Some(title)) => {
            if t.len() == 0 || t == "website"@ || t == "album"@ {
                None
            } else {
                let ext = extension_of(title);
                if is_image_ext(ext) {
                    match p.preview_src {
                        Some(src) => if src.len() == 0 {
                            None
                        } else {
                            Some((title, src))
                        },
                        None => None,
                    }
                } else {
                    match p.thumb_marker {
                        Some(tm) => Some((title, reconstruct_spec(tm, ext))),
                        None => None,
                    }
                }
            }
        },
        _ => None,
    }
}

/// A page that has no content-type marker, or whose marker is empty or
/// reads `website`, contributes no source and records no title.
pub proof fn lemma_untyped_page_contributes_nothing(p: PageView, title_empty: bool)
    requires
        p.meta_type is None || p.meta_type->0.len() == 0 || p.meta_type->0 == "website"@,
    ensures
        page_source(p) is None,
        page_title_record(p, title_empty) is None,
{
    reveal_strlit("website");
    reveal_strlit("album");
    assert("website"@.len() == 7);
    assert("album"@.len() == 5);
}

/// What one page does to the running extraction.
pub enum PageOutcome {
    /// Nothing on this page.
    Skip,
    /// The run's album title, freshly sanitized.
    AlbumTitle(String),
    /// One downloadable source.
    Found(SourceDescriptor),
}

fn is_image_ext_exec(e: &str) -> (r: bool)
    ensures
        r == is_image_ext(e@),
{
    str_eq(e, ".jpg") || str_eq(e, ".png") || str_eq(e, ".gif") || str_eq(e, ".jpeg")
}

/// Decides what one page contributes, from its markers alone.
pub fn extract_page(m: &PageMarkers, title_empty: bool) -> (r: PageOutcome)
    ensures
        match r {
            PageOutcome::Skip => page_title_record(m@, title_empty) is None && page_source(m@)
                is None,
            PageOutcome::AlbumTitle(t) => page_title_record(m@, title_empty) == Some(t@)
                && page_source(m@) is None,
            PageOutcome::Found(s) => page_title_record(m@, title_empty) is None && page_source(m@)
                == Some(s@),
        },
{
    let t = match &m.meta_type {
        Some(t) => t,
        None => { return PageOutcome::Skip },
    };
    let title = match &m.meta_title {
        Some(x) => x,
        None => { return PageOutcome::Skip },
    };
    if t.as_str().unicode_len() == 0 || str_eq(t.as_str(), "website") {
        return PageOutcome::Skip;
    }
    if str_eq(t.as_str(), "album") {
        if title_empty {
            let st = sanitize_filename(title.as_str());
            if st.as_str().unicode_len() != 0 {
                return PageOutcome::AlbumTitle(st);
            }
        }
        return PageOutcome::Skip;
    }
    let ext = derive_extension(title.as_str());
    if is_image_ext_exec(ext.as_str()) {
        match &m.preview_src {
            Some(src) => {
                if src.as_str().unicode_len() == 0 {
                    PageOutcome::Skip
                } else {
                    PageOutcome::Found(
                        SourceDescriptor { name: title.clone(), url: src.clone() },
                    )
                }
            },
            None => PageOutcome::Skip,
        }
    } else {
        match &m.thumb_marker {
            Some(tm) => PageOutcome::Found(
                SourceDescriptor {
                    name: title.clone(),
                    url: reconstruct_video_url(tm.as_str(), ext.as_str()),
                },
            ),
            None => PageOutcome::Skip,
        }
    }
}

/// The running extraction state: the album title found so far (empty while
/// none was found) and the sources in album order.
pub open spec fn extract_step(
    st: (Seq<char>, Seq<(Seq<char>, Seq<char>)>),
    p: PageView,
) -> (Seq<char>, Seq<(Seq<char>, Seq<char>)>) {
    let title = match page_title_record(p, st.0.len() == 0) {
        Some(t) => t,
        None => st.0,
    };
    let sources = match page_source(p) {
        Some(s) => st.1.push(s),
        None => st.1,
    };
    (title, sources)
}

pub open spec fn extract_fold(
    pages: Seq<PageView>,
    st: (Seq<char>, Seq<(Seq<char>, Seq<char>)>),
) -> (Seq<char>, Seq<(Seq<char>, Seq<char>)>)
    decreases pages.len(),
{
    if pages.len() == 0 {
        st
    } else {
        extract_fold(pages.skip(1), extract_step(st, pages[0]))
    }
}

/// The album title and source list extracted from a sequence of pages.
pub open spec fn extract_spec(pages: Seq<PageView>) -> (Seq<char>, Seq<(Seq<char>, Seq<char>)>) {
    extract_fold(pages, (Seq::empty(), Seq::empty()))
}

/// The result of link extraction over the whole crawled document set.
pub struct Extraction {
    /// Sanitized album title; empty when no album page carried one.
    pub title: String,
    /// One entry per media page, in album order.
    pub sources: Vec<SourceDescriptor>,
}

pub open spec fn sources_view(v: Seq<SourceDescriptor>) -> Seq<(Seq<char>, Seq<char>)> {
    v.map_values(|s: SourceDescriptor| s@)
}

/// Folds the pages' markers into the running album title and source list,
/// starting from whatever both already hold.
pub fn extract_pages_into(
    title: &mut String,
    sources: &mut Vec<SourceDescriptor>,
    markers: &Vec<PageMarkers>,
)
    ensures
        (final(title)@, sources_view(final(sources)@)) == extract_fold(
            markers@.map_values(|m: PageMarkers| m@),
            (old(title)@, sources_view(old(sources)@)),
        ),
{
    let ghost pviews = markers@.map_values(|m: PageMarkers| m@);
    let mut i: usize = 0;
    proof {
        assert(pviews.skip(0) =~= pviews);
    }
    while i < markers.len()
        invariant
            i <= markers@.len(),
            pviews == markers@.map_values(|m: PageMarkers| m@),
            extract_fold(pviews, (old(title)@, sources_view(old(sources)@))) == extract_fold(
                pviews.skip(i as int),
                (title@, sources_view(sources@)),
            ),
        decreases markers@.len() - i,
    {
        let ghost st: (Seq<char>, Seq<(Seq<char>, Seq<char>)>) = (
            title@,
            sources_view(sources@),
        );
        let title_empty = title.as_str().unicode_len() == 0;
        let outcome = extract_page(&markers[i], title_empty);
        proof {
            assert(pviews.skip(i as int)[0] == pviews[i as int]);
            assert(pviews.skip(i as int).skip(1) =~= pviews.skip(i + 1));
        }
        match outcome {
            PageOutcome::Skip => {
                proof {
                    assert(extract_step(st, pviews[i as int]) == st);
                }
            },
            PageOutcome::AlbumTitle(t) => {
                *title = t;
                proof {
                    assert(extract_step(st, pviews[i as int]) == (
                        title@,
                        sources_view(sources@),
                    ));
                }
            },
            PageOutcome::Found(s) => {
                sources.push(s);
                proof {
                    assert(sources_view(sources@) =~= st.1.push(sources@.last()@));
                    assert(extract_step(st, pviews[i as int]) == (
                        title@,
                        sources_view(sources@),
                    ));
                }
            },
        }
        i += 1;
    }
    proof {
        assert(pviews.skip(markers@.len() as int) =~= Seq::<PageView>::empty());
    }
}

/// Folds the pages' markers into an album title and a source list.
pub fn extract_pages(markers: &Vec<PageMarkers>) -> (r: Extraction)
    ensures
        (r.title@, sources_view(r.sources@)) == extract_spec(
            markers@.map_values(|m: PageMarkers| m@),
        ),
{
    let mut title = String::new();
    let mut sources: Vec<SourceDescriptor> = Vec::new();
    proof {
        assert(sources_view(sources@) =~= Seq::<(Seq<char>, Seq<char>)>::empty());
    }
    extract_pages_into(&mut title, &mut sources, markers);
    Extraction { title, sources }
}

/// Reads the markers of every crawled document.
pub fn read_all_markers(htmls: &Vec<String>) -> (r: Vec<PageMarkers>)
    ensures
        r@.map_values(|m: PageMarkers| m@) == htmls@.map_values(|h: String| page_view_of(h@)),
{
    let mut out: Vec<PageMarkers> = Vec::new();
    let mut i: usize = 0;
    while i < htmls.len()
        invariant
            i <= htmls@.len(),
            out@.len() == i,
            forall|j: int| 0 <= j < i ==> out@[j]@ == page_view_of(htmls@[j]@),
        decreases htmls@.len() - i,
    {
        let m = read_page_markers(htmls[i].as_str());
        out.push(m);
        i += 1;
    }
    proof {
        assert(out@.map_values(|m: PageMarkers| m@) =~= htmls@.map_values(
            |h: String| page_view_of(h@),
        ));
    }
    out
}

} // verus!
