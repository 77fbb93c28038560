use trading_backend::web::{mime_for, spa_file_path};

#[test]
fn mime_types_by_extension() {
    assert_eq!(mime_for("assets/app.js"), "application/javascript");
    assert_eq!(mime_for("style.css"), "text/css");
    assert_eq!(mime_for("index.html"), "text/html");
    assert_eq!(mime_for("logo.svg"), "image/svg+xml");
    assert_eq!(mime_for("a.png"), "image/png");
    assert_eq!(mime_for("favicon.ico"), "image/x-icon");
    assert_eq!(mime_for("data.json"), "application/json");
    assert_eq!(mime_for("font.woff2"), "font/woff2");
    assert_eq!(mime_for("archive.tar"), "application/octet-stream");
}

#[test]
fn spa_paths_resolve_under_the_build_directory() {
    assert_eq!(spa_file_path("/"), "frontend/dist/index.html");
    assert_eq!(spa_file_path(""), "frontend/dist/index.html");
    assert_eq!(spa_file_path("//assets/app.js"), "frontend/dist/assets/app.js");
}
