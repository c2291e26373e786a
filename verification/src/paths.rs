//! File-name sanitization and resolution of the download directory.

use vstd::prelude::*;
use vstd::string::StrSliceExecFns;
use vstd::string::StringExecFns;
use crate::text::str_chars;
use crate::text::chars_string;

verus! {

/// Replaces a character that is illegal in a file path with an underscore
/// and leaves every other character unchanged.
pub open spec fn sanitize_char(c: char) -> char {
    if c == '/' || c == '\\' || c == ':' || c == '*' || c == '?' || c == '"' || c == '<'
        || c == '>' || c == '|' {
        '_'
    } else {
        c
    }
}

pub open spec fn sanitize_spec(s: Seq<char>) -> Seq<char> {
    s.map_values(|c: char| sanitize_char(c))
}

/// The file title with every path-illegal character replaced by `_`.
pub fn sanitize_filename(filename: &str) -> (r: String)
    ensures
        r@ == sanitize_spec(filename@),
{
    let chars = str_chars(filename);
    let mut out: Vec<char> = Vec::new();
    let mut i: usize = 0;
    while i < chars.len()
        invariant
            i <= chars@.len(),
            chars@ == filename@,
            out@ == sanitize_spec(filename@.take(i as int)),
        decreases chars@.len() - i,
    {
        let c = chars[i];
        let s = if c == '/' || c == '\\' || c == ':' || c == '*' || c == '?' || c == '"'
            || c == '<' || c == '>' || c == '|' {
            '_'
        } else {
            c
        };
        out.push(s);
        proof {
            assert(sanitize_spec(filename@.take(i + 1)) =~= sanitize_spec(
                filename@.take(i as int),
            ).push(sanitize_char(filename@[i as int])));
        }
        i += 1;
    }
    proof {
        assert(filename@.take(filename@.len() as int) =~= filename@);
    }
    chars_string(&out)
}

/// Where the downloaded files go: the base directory if the caller found it
/// usable, else the current directory, with a subdirectory named after the
/// album title, or a fixed default name when no title was recorded.
pub open spec fn download_dir_spec(base: Seq<char>, base_usable: bool, title: Seq<char>) -> Seq<
    char,
> {
    let b = if base_usable {
        base
    } else {
        "."@
    };
    let t = if title.len() == 0 {
        "no_title"@
    } else {
        title
    };
    b + "/"@ + t
}

/// Joins the base directory and the album title into the output directory.
/// Whether the base directory exists on disk is the caller's finding,
/// passed in as `base_usable`.
pub fn resolve_download_dir(base_dir: &str, base_usable: bool, title: &str) -> (r: String)
    ensures
        r@ == download_dir_spec(base_dir@, base_usable, title@),
{
    let mut r = String::new();
    if base_usable {
        r.append(base_dir);
    } else {
        r.append(".");
    }
    r.append("/");
    if title.unicode_len() == 0 {
        r.append("no_title");
    } else {
        r.append(title);
    }
    r
}

} // verus!
