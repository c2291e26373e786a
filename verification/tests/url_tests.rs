use bunkr_spider::paths::resolve_download_dir;
use bunkr_spider::paths::sanitize_filename;
use bunkr_spider::urls::derive_extension;
use bunkr_spider::urls::normalize_url;
use bunkr_spider::urls::reconstruct_video_url;
use bunkr_spider::urls::remove_all_extensions_after_last_slash;

#[test]
fn sanitize_replaces_colon() {
    assert_eq!(sanitize_filename("foo:bar.jpg"), "foo_bar.jpg");
}

#[test]
fn sanitize_replaces_every_illegal_character() {
    assert_eq!(sanitize_filename("a/b\\c:d*e?f\"g<h>i|j"), "a_b_c_d_e_f_g_h_i_j");
}

#[test]
fn sanitize_keeps_legal_names() {
    assert_eq!(sanitize_filename("plain name-01.png"), "plain name-01.png");
}

#[test]
fn normalize_strips_query_and_whitespace() {
    assert_eq!(
        normalize_url("  https://example.net/a/b?page=2&x=1 \n"),
        "https://example.net/a/b"
    );
}

#[test]
fn normalize_strips_unicode_whitespace() {
    assert_eq!(
        normalize_url("\u{00A0}https://example.net/a?x=1\u{000B}"),
        "https://example.net/a"
    );
    assert_eq!(
        normalize_url("\u{3000}\u{2009}https://example.net/b\u{2028}"),
        "https://example.net/b"
    );
}

#[test]
fn normalize_without_query_is_trim_only() {
    assert_eq!(normalize_url("https://example.net/a"), "https://example.net/a");
}

#[test]
fn extension_comes_from_last_dot() {
    assert_eq!(derive_extension("clip.part1.mp4"), ".mp4");
}

#[test]
fn extension_of_dotless_title_is_whole_title() {
    assert_eq!(derive_extension("clip"), ".clip");
}

#[test]
fn strip_removes_suffixes_after_last_slash() {
    assert_eq!(
        remove_all_extensions_after_last_slash("https://host/x/y.png.jpg"),
        "https://host/x/y"
    );
}

#[test]
fn strip_without_slash_cuts_at_first_dot() {
    assert_eq!(remove_all_extensions_after_last_slash("name.tar.gz"), "name");
}

#[test]
fn strip_without_dot_keeps_url() {
    assert_eq!(remove_all_extensions_after_last_slash("https://host/x/y"), "https://host/x/y");
}

#[test]
fn video_url_reconstruction() {
    let thumb = "https://i-kebab.example.su/thumbs/ab12/clip-name.mp4.png";
    assert_eq!(
        reconstruct_video_url(thumb, ".mp4"),
        "https://kebab.example.su/ab12/clip-name.mp4"
    );
}

#[test]
fn download_dir_uses_base_and_title() {
    assert_eq!(resolve_download_dir("/data", true, "My Album"), "/data/My Album");
}

#[test]
fn download_dir_falls_back_without_base_or_title() {
    assert_eq!(resolve_download_dir("/missing", false, ""), "./no_title");
}
