//! URL handling: normalization of the album URL, derivation of the file
//! extension from a title marker, and reconstruction of a video URL from
//! its thumbnail URL.

use vstd::prelude::*;
use vstd::string::StrSliceExecFns;
use vstd::string::StringExecFns;
use crate::text::str_chars;
use crate::text::chars_string;
use crate::text::push_range;
use crate::text::find_first;
use crate::text::find_last;
use crate::text::find_first_char;
use crate::text::find_last_char;
use crate::text::replace_spec;
use crate::text::replace_all;

verus! {

/// The Unicode `White_Space` characters, the set `str::trim` strips.
pub open spec fn is_space(c: char) -> bool {
    ||| c == '\u{0009}' || c == '\u{000A}' || c == '\u{000B}' || c == '\u{000C}' || c
        == '\u{000D}' || c == '\u{0020}'
    ||| c == '\u{0085}' || c == '\u{00A0}' || c == '\u{1680}'
    ||| (0x2000 <= c as u32 && c as u32 <= 0x200A)
    ||| c == '\u{2028}' || c == '\u{2029}' || c == '\u{202F}' || c == '\u{205F}' || c == '\u{3000}'
}

pub open spec fn trim_front(s: Seq<char>) -> Seq<char>
    decreases s.len(),
{
    if s.len() > 0 && is_space(s[0]) {
        trim_front(s.skip(1))
    } else {
        s
    }
}

pub open spec fn trim_back(s: Seq<char>) -> Seq<char>
    decreases s.len(),
{
    if s.len() > 0 && is_space(s[s.len() - 1]) {
        trim_back(s.drop_last())
    } else {
        s
    }
}

pub open spec fn trim_spec(s: Seq<char>) -> Seq<char> {
    trim_back(trim_front(s))
}

/// The album URL as used for crawling: surrounding whitespace removed and
/// everything from the first `?` on (the query string) stripped.
pub open spec fn normalize_url_spec(url: Seq<char>) -> Seq<char> {
    let t = trim_spec(url);
    match find_first(t, '?') {
        Some(i) => t.take(i),
        None => t,
    }
}

fn space(c: char) -> (r: bool)
    ensures
        r == is_space(c),
{
    c == '\u{0009}' || c == '\u{000A}' || c == '\u{000B}' || c == '\u{000C}' || c == '\u{000D}'
        || c == '\u{0020}' || c == '\u{0085}' || c == '\u{00A0}' || c == '\u{1680}' || (0x2000
        <= c as u32 && c as u32 <= 0x200A) || c == '\u{2028}' || c == '\u{2029}' || c == '\u{202F}'
        || c == '\u{205F}' || c == '\u{3000}'
}

/// Strips surrounding whitespace and the query string from the album URL.
pub fn normalize_url(url: &str) -> (r: String)
    ensures
        r@ == normalize_url_spec(url@),
{
    let chars = str_chars(url);
    let n = chars.len();
    let mut a: usize = 0;
    proof {
        assert(chars@.skip(0) =~= chars@);
    }
    while a < n && space(chars[a])
        invariant
            a <= n,
            n == chars@.len(),
            chars@ == url@,
            trim_front(url@) == trim_front(chars@.skip(a as int)),
        decreases n - a,
    {
        proof {
            assert(chars@.skip(a as int).skip(1) =~= chars@.skip(a + 1));
        }
        a += 1;
    }
    proof {
        assert(trim_front(url@) == chars@.skip(a as int));
    }
    let mut b: usize = n;
    proof {
        assert(chars@.subrange(a as int, n as int) =~= chars@.skip(a as int));
    }
    while b > a && space(chars[b - 1])
        invariant
            a <= b <= n,
            n == chars@.len(),
            chars@ == url@,
            trim_front(url@) == chars@.skip(a as int),
            trim_back(chars@.skip(a as int)) == trim_back(chars@.subrange(a as int, b as int)),
        decreases b,
    {
        proof {
            assert(chars@.subrange(a as int, b as int).drop_last() =~= chars@.subrange(
                a as int,
                b - 1,
            ));
        }
        b -= 1;
    }
    proof {
        assert(trim_spec(url@) == chars@.subrange(a as int, b as int));
    }
    let mut trimmed: Vec<char> = Vec::new();
    push_range(&mut trimmed, &chars, a, b);
    proof {
        assert(trimmed@ =~= chars@.subrange(a as int, b as int));
    }
    match find_first_char(&trimmed, '?') {
        Some(i) => {
            let mut out: Vec<char> = Vec::new();
            push_range(&mut out, &trimmed, 0, i);
            proof {
                assert(out@ =~= trimmed@.take(i as int));
            }
            chars_string(&out)
        },
        None => chars_string(&trimmed),
    }
}

/// The extension that the title marker carries: a dot followed by what
/// stands after the title's last dot, or by the whole title when it has
/// no dot.
pub open spec fn extension_of(title: Seq<char>) -> Seq<char> {
    match find_last(title, '.') {
        Some(i) => seq!['.'] + title.skip(i + 1),
        None => seq!['.'] + title,
    }
}

/// Derives the file extension from the trailing dot-segment of the title.
pub fn derive_extension(title: &str) -> (r: String)
    ensures
        r@ == extension_of(title@),
{
    let chars = str_chars(title);
    let mut out: Vec<char> = Vec::new();
    out.push('.');
    proof {
        assert(out@ =~= seq!['.']);
    }
    match find_last_char(&chars, '.') {
        Some(i) => {
            push_range(&mut out, &chars, i + 1, chars.len());
            proof {
                assert(chars@.subrange(i + 1, chars@.len() as int) =~= chars@.skip(i + 1));
            }
        },
        None => {
            push_range(&mut out, &chars, 0, chars.len());
            proof {
                assert(chars@.subrange(0, chars@.len() as int) =~= chars@);
            }
        },
    }
    chars_string(&out)
}

/// The URL with every extension-like suffix after the final path separator
/// removed: everything from the first dot that follows the last slash is
/// dropped; a URL without such a dot is left unchanged.
pub open spec fn strip_extensions_spec(url: Seq<char>) -> Seq<char> {
    match find_last(url, '/') {
        Some(s) => match find_first(url.skip(s + 1), '.') {
            Some(d) => url.take(s + 1 + d),
            None => url,
        },
        None => match find_first(url, '.') {
            Some(d) => url.take(d),
            None => url,
        },
    }
}

/// Removes every extension-like suffix after the last path separator.
pub fn remove_all_extensions_after_last_slash(url: &str) -> (r: String)
    ensures
        r@ == strip_extensions_spec(url@),
{
    let chars = str_chars(url);
    match find_last_char(&chars, '/') {
        Some(s) => {
            let mut fname: Vec<char> = Vec::new();
            push_range(&mut fname, &chars, s + 1, chars.len());
            proof {
                assert(fname@ =~= chars@.skip(s + 1));
            }
            match find_first_char(&fname, '.') {
                Some(d) => {
                    let mut out: Vec<char> = Vec::new();
                    push_range(&mut out, &chars, 0, s + 1 + d);
                    proof {
                        assert(out@ =~= chars@.take(s + 1 + d));
                    }
                    chars_string(&out)
                },
                None => chars_string(&chars),
            }
        },
        None => {
            match find_first_char(&chars, '.') {
                Some(d) => {
                    let mut out: Vec<char> = Vec::new();
                    push_range(&mut out, &chars, 0, d);
                    proof {
                        assert(out@ =~= chars@.take(d as int));
                    }
                    chars_string(&out)
                },
                None => chars_string(&chars),
            }
        },
    }
}

/// The reconstructed video URL: the thumbnail URL with its `/thumbs` path
/// segment removed, its `https://i-` host prefix rewritten to `https://`,
/// every extension-like suffix after the last path separator stripped, and
/// the extension derived from the title appended.
pub open spec fn reconstruct_spec(thumb: Seq<char>, ext: Seq<char>) -> Seq<char> {
    let a = replace_spec(thumb, "/thumbs"@, Seq::<char>::empty());
    let b = replace_spec(a, "https://i-"@, "https://"@);
    strip_extensions_spec(b) + ext
}

/// A thumbnail URL of the shape `https://i-<host>/thumbs/<path>/<stem><exts>`.
pub open spec fn thumb_of(host: Seq<char>, path: Seq<char>, stem: Seq<char>, exts: Seq<
    char,
>) -> Seq<char> {
    "https://i-"@ + host + "/thumbs"@ + ("/"@ + path + "/"@ + stem + exts)
}

/// Well-formedness of such a thumbnail URL: the `/thumbs` segment and the
/// `https://i-` prefix occur nowhere else, the stem carries no separator
/// and no dot, and the trailing suffixes begin with a dot and carry no
/// separator.
pub open spec fn well_formed_thumb(host: Seq<char>, path: Seq<char>, stem: Seq<char>, exts: Seq<
    char,
>) -> bool {
    let pre = "https://i-"@ + host;
    let tail = "/"@ + path + "/"@ + stem + exts;
    let thumb = thumb_of(host, path, stem, exts);
    &&& forall|j: int| 0 <= j < pre.len() ==> !crate::text::occurs_at(thumb, "/thumbs"@, j)
    &&& !crate::text::has_occurrence(tail, "/thumbs"@)
    &&& !crate::text::has_occurrence(host + tail, "https://i-"@)
    &&& forall|j: int| 0 <= j < stem.len() ==> stem[j] != '/' && stem[j] != '.'
    &&& forall|j: int| 0 <= j < exts.len() ==> exts[j] != '/'
    &&& exts.len() > 0
    &&& exts[0] == '.'
}

/// Reconstruction is exact on well-formed input: a thumbnail URL
/// `https://i-<host>/thumbs/<path>/<stem><exts>` comes out as
/// `https://<host>/<path>/<stem>` with the derived extension appended.
pub proof fn lemma_video_url_reconstruction(
    host: Seq<char>,
    path: Seq<char>,
    stem: Seq<char>,
    exts: Seq<char>,
    ext: Seq<char>,
)
    requires
        well_formed_thumb(host, path, stem, exts),
    ensures
        reconstruct_spec(thumb_of(host, path, stem, exts), ext) == "https://"@ + host + "/"@ + path
            + "/"@ + stem + ext,
{
    reveal_strlit("https://i-");
    reveal_strlit("https://");
    reveal_strlit("/thumbs");
    reveal_strlit("/");
    let thumbs_pat = "/thumbs"@;
    let prefix_pat = "https://i-"@;
    let h8 = "https://"@;
    let pre = prefix_pat + host;
    let tail = "/"@ + path + "/"@ + stem + exts;
    let thumb = thumb_of(host, path, stem, exts);
    assert(thumbs_pat.len() == 7);
    assert(prefix_pat.len() == 10);
    assert(h8.len() == 8);
    assert(thumb =~= pre + thumbs_pat + tail);
    assert(thumb.subrange(pre.len() as int, pre.len() as int + 7) =~= thumbs_pat);
    assert(crate::text::occurs_at(thumb, thumbs_pat, pre.len() as int));
    assert(thumb.skip(pre.len() as int + 7) =~= tail);
    crate::text::lemma_replace_single(thumb, thumbs_pat, Seq::<char>::empty(), pre.len() as int);
    let a = replace_spec(thumb, thumbs_pat, Seq::<char>::empty());
    assert(thumb.take(pre.len() as int) =~= pre);
    assert(a =~= pre + tail);
    assert(a.subrange(0, 10) =~= prefix_pat);
    assert(crate::text::occurs_at(a, prefix_pat, 0));
    assert(a.skip(10) =~= host + tail);
    crate::text::lemma_replace_single(a, prefix_pat, h8, 0);
    let b = replace_spec(a, prefix_pat, h8);
    assert(b =~= h8 + host + tail);
    let bfull = h8 + host + tail;
    let i0 = 8 + host.len() as int + 1 + path.len() as int;
    assert(bfull[i0] == '/');
    assert forall|j: int| i0 < j < bfull.len() implies bfull[j] != '/' by {
        if j < i0 + 1 + stem.len() {
            assert(bfull[j] == stem[j - i0 - 1]);
        } else {
            assert(bfull[j] == exts[j - i0 - 1 - stem.len()]);
        }
    }
    crate::text::lemma_find_last_at(bfull, '/', i0);
    assert(bfull.skip(i0 + 1) =~= stem + exts);
    assert((stem + exts)[stem.len() as int] == '.');
    crate::text::lemma_find_first_at(stem + exts, '.', stem.len() as int);
    assert(strip_extensions_spec(bfull) == bfull.take(i0 + 1 + stem.len()));
    assert(bfull.take(i0 + 1 + stem.len()) =~= h8 + host + "/"@ + path + "/"@ + stem);
    assert(reconstruct_spec(thumb, ext) == strip_extensions_spec(b) + ext);
    assert(strip_extensions_spec(b) + ext =~= h8 + host + "/"@ + path + "/"@ + stem + ext);
}

/// Rebuilds the original asset URL from a thumbnail URL and the extension
/// derived from the title marker.
pub fn reconstruct_video_url(thumb_url: &str, extension: &str) -> (r: String)
    ensures
        r@ == reconstruct_spec(thumb_url@, extension@),
{
    let chars = str_chars(thumb_url);
    let pat_thumbs = str_chars("/thumbs");
    let rep_none: Vec<char> = Vec::new();
    proof {
        reveal_strlit("/thumbs");
        assert(rep_none@ =~= Seq::<char>::empty());
    }
    let a = replace_all(&chars, &pat_thumbs, &rep_none);
    let pat_host = str_chars("https://i-");
    let rep_host = str_chars("https://");
    proof {
        reveal_strlit("https://i-");
    }
    let b = replace_all(&a, &pat_host, &rep_host);
    let b_str = chars_string(&b);
    let stripped = remove_all_extensions_after_last_slash(b_str.as_str());
    stripped.concat(extension)
}

} // verus!
