//! The path sanitizer, the resolver, the extension table and the decimal
//! renderer, on concrete values.

use syserve::bytes::{bytes_eq, push_all};
use syserve::mime::{extension_of, mime_for};
use syserve::resolve::{
    decode_space_escapes, join_under, resolve_path, sanitize_path, strip_parent_refs,
};
use syserve::response::{build_ok_response, usize_to_dec};

#[test]
fn strip_removes_each_left_to_right_occurrence() {
    assert_eq!(strip_parent_refs(b"/../../etc/passwd"), b"/etc/passwd".to_vec());
    assert_eq!(strip_parent_refs(b"/a/../b"), b"/a/b".to_vec());
    assert_eq!(strip_parent_refs(b"no-dots"), b"no-dots".to_vec());
    assert_eq!(strip_parent_refs(b""), b"".to_vec());
}

#[test]
fn strip_is_a_single_pass() {
    // The removal itself can form a new occurrence, which the single pass
    // keeps: the documented limit of the sanitizer.
    assert_eq!(strip_parent_refs(b"/....//etc/passwd"), b"/../etc/passwd".to_vec());
}

#[test]
fn decode_replaces_each_space_escape() {
    assert_eq!(decode_space_escapes(b"my%20file"), b"my file".to_vec());
    assert_eq!(decode_space_escapes(b"%20%20"), b"  ".to_vec());
    assert_eq!(decode_space_escapes(b"%21"), b"%21".to_vec());
    assert_eq!(decode_space_escapes(b"a%2"), b"a%2".to_vec());
}

#[test]
fn sanitize_strips_then_decodes() {
    assert_eq!(sanitize_path(b"/a%20b/../c"), b"/a b/c".to_vec());
}

#[test]
fn root_path_resolves_to_the_index_file() {
    assert_eq!(resolve_path(b"/", b"/site", b"index.html"), b"/site/index.html".to_vec());
}

#[test]
fn other_paths_resolve_under_the_directory() {
    assert_eq!(resolve_path(b"/img/a.png", b"/site", b"index.html"), b"/site/img/a.png".to_vec());
    assert_eq!(resolve_path(b"", b"/site", b"index.html"), b"/site/".to_vec());
}

#[test]
fn join_puts_one_slash_between() {
    assert_eq!(join_under(b"/site", b"404.html"), b"/site/404.html".to_vec());
}

#[test]
fn extension_is_taken_from_the_final_component() {
    assert_eq!(extension_of(b"/site/index.html"), Some(b"html".to_vec()));
    assert_eq!(extension_of(b"/site/archive.tar.gz"), Some(b"gz".to_vec()));
    assert_eq!(extension_of(b"/site/README"), None);
    assert_eq!(extension_of(b"/site/.hidden"), None);
    assert_eq!(extension_of(b"/site/.hidden.js"), Some(b"js".to_vec()));
    assert_eq!(extension_of(b"/site/trailing."), Some(b"".to_vec()));
    assert_eq!(extension_of(b"/site.d/plain"), None);
    assert_eq!(extension_of(b""), None);
}

#[test]
fn known_extensions_map_to_their_content_types() {
    assert_eq!(mime_for(Some(b"html")), b"text/html".to_vec());
    assert_eq!(mime_for(Some(b"htm")), b"text/html".to_vec());
    assert_eq!(mime_for(Some(b"css")), b"text/css".to_vec());
    assert_eq!(mime_for(Some(b"js")), b"application/javascript".to_vec());
    assert_eq!(mime_for(Some(b"wasm")), b"application/wasm".to_vec());
    assert_eq!(mime_for(Some(b"json")), b"application/json".to_vec());
    assert_eq!(mime_for(Some(b"png")), b"image/png".to_vec());
    assert_eq!(mime_for(Some(b"jpg")), b"image/jpeg".to_vec());
    assert_eq!(mime_for(Some(b"jpeg")), b"image/jpeg".to_vec());
    assert_eq!(mime_for(Some(b"gif")), b"image/gif".to_vec());
    assert_eq!(mime_for(Some(b"svg")), b"image/svg+xml".to_vec());
    assert_eq!(mime_for(Some(b"ico")), b"image/x-icon".to_vec());
    assert_eq!(mime_for(Some(b"txt")), b"text/plain".to_vec());
}

#[test]
fn unknown_or_absent_extension_is_octet_stream() {
    assert_eq!(mime_for(Some(b"exe")), b"application/octet-stream".to_vec());
    assert_eq!(mime_for(Some(b"")), b"application/octet-stream".to_vec());
    assert_eq!(mime_for(None), b"application/octet-stream".to_vec());
}

#[test]
fn decimal_rendering_is_exact() {
    assert_eq!(usize_to_dec(0), b"0".to_vec());
    assert_eq!(usize_to_dec(7), b"7".to_vec());
    assert_eq!(usize_to_dec(14), b"14".to_vec());
    assert_eq!(usize_to_dec(1024), b"1024".to_vec());
    assert_eq!(usize_to_dec(90210), b"90210".to_vec());
    assert_eq!(usize_to_dec(usize::MAX), usize::MAX.to_string().into_bytes());
}

#[test]
fn ok_response_lays_out_headers_and_body() {
    let resp = build_ok_response(b"/site/style.css", b"body{}".to_vec());
    assert_eq!(
        resp,
        b"HTTP/1.1 200 OK\r\nContent-type: text/css\r\nContent-Length: 6\r\n\r\nbody{}".to_vec()
    );
}

#[test]
fn byte_helpers_compare_and_append() {
    assert!(bytes_eq(b"abc", b"abc"));
    assert!(!bytes_eq(b"abc", b"abd"));
    assert!(!bytes_eq(b"abc", b"ab"));
    let mut v = b"ab".to_vec();
    push_all(&mut v, b"cd");
    assert_eq!(v, b"abcd".to_vec());
}
