use versus_stacker::files::{content_type_for, mime_for_extension, sanitize_path};

#[test]
fn content_types_by_extension() {
    assert_eq!(content_type_for("web/index.html"), "text/html; charset=utf-8");
    assert_eq!(content_type_for("web/pkg/game.js"), "application/javascript");
    assert_eq!(content_type_for("style.css"), "text/css");
    assert_eq!(content_type_for("web/pkg/game_bg.wasm"), "application/wasm");
    assert_eq!(content_type_for("a/b.json"), "application/json");
    assert_eq!(content_type_for("x.png"), "image/png");
    assert_eq!(content_type_for("x.jpg"), "image/jpeg");
    assert_eq!(content_type_for("x.jpeg"), "image/jpeg");
    assert_eq!(content_type_for("x.svg"), "image/svg+xml");
    assert_eq!(content_type_for("x.tar.gz"), "application/octet-stream");
    assert_eq!(content_type_for("archive.min.js"), "application/javascript");
}

#[test]
fn paths_without_a_known_extension_are_plain_bytes() {
    assert_eq!(content_type_for("web/README"), "application/octet-stream");
    assert_eq!(content_type_for(""), "application/octet-stream");
    assert_eq!(content_type_for(".html"), "application/octet-stream");
    assert_eq!(content_type_for("web.d/file"), "application/octet-stream");
    assert_eq!(content_type_for("x.HTML"), "application/octet-stream");
    assert_eq!(content_type_for("x."), "application/octet-stream");
    assert_eq!(content_type_for("html"), "application/octet-stream");
}

#[test]
fn content_type_of_an_extension() {
    assert_eq!(mime_for_extension("html"), "text/html; charset=utf-8");
    assert_eq!(mime_for_extension("jpeg"), "image/jpeg");
    assert_eq!(mime_for_extension(""), "application/octet-stream");
    assert_eq!(mime_for_extension("htm"), "application/octet-stream");
    assert_eq!(mime_for_extension("wasm "), "application/octet-stream");
}

#[test]
fn request_paths_become_relative() {
    assert_eq!(sanitize_path("/"), "index.html");
    assert_eq!(sanitize_path("/index.html"), "index.html");
    assert_eq!(sanitize_path("/pkg/game.js"), "pkg/game.js");
    assert_eq!(sanitize_path("///a//b/"), "a//b/");
    assert_eq!(sanitize_path("//"), "");
    assert_eq!(sanitize_path(""), "");
    assert_eq!(sanitize_path("style.css"), "style.css");
    assert_eq!(sanitize_path("/größe/ü.png"), "größe/ü.png");
    assert_eq!(sanitize_path("/../secret"), "../secret");
}
