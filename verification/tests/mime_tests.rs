use file_server::mime::extension_of_url;
use file_server::mime::mime_type_for;

#[test]
fn known_extensions_map_to_their_types() {
    assert_eq!(mime_type_for("/index.html"), "text/html");
    assert_eq!(mime_type_for("/style.css"), "text/css");
    assert_eq!(mime_type_for("/app.js"), "application/javascript");
    assert_eq!(mime_type_for("/photo.jpg"), "image/jpeg");
    assert_eq!(mime_type_for("/photo.jpeg"), "image/jpeg");
    assert_eq!(mime_type_for("/icon.png"), "image/png");
    assert_eq!(mime_type_for("/anim.gif"), "image/gif");
    assert_eq!(mime_type_for("/logo.svg"), "image/svg+xml");
    assert_eq!(mime_type_for("/data.json"), "application/json");
}

#[test]
fn unknown_extension_falls_back() {
    assert_eq!(mime_type_for("/archive.tar.gz"), "application/octet-stream");
    assert_eq!(mime_type_for("/binary.exe"), "application/octet-stream");
}

#[test]
fn no_extension_falls_back() {
    assert_eq!(mime_type_for("/README"), "application/octet-stream");
    assert_eq!(mime_type_for("/"), "application/octet-stream");
    assert_eq!(mime_type_for(""), "application/octet-stream");
}

#[test]
fn extension_is_taken_from_last_segment_only() {
    assert_eq!(mime_type_for("/v1.2/notes"), "application/octet-stream");
    assert_eq!(mime_type_for("/v1.2/notes.html"), "text/html");
    assert_eq!(mime_type_for("/sub.html/"), "application/octet-stream");
}

#[test]
fn extension_of_url_cases() {
    assert_eq!(extension_of_url("/a/b.txt"), Some(String::from("txt")));
    assert_eq!(extension_of_url("/a.b/c"), None);
    assert_eq!(extension_of_url("/a/b"), None);
    assert_eq!(extension_of_url("/notes."), Some(String::from("")));
    assert_eq!(extension_of_url("/.hidden"), None);
    assert_eq!(extension_of_url("/sub/.hidden"), None);
    assert_eq!(extension_of_url("/a.b.c"), Some(String::from("c")));
    assert_eq!(extension_of_url(""), None);
}

#[test]
fn dotfile_with_second_dot_has_extension() {
    assert_eq!(extension_of_url("/.config.json"), Some(String::from("json")));
    assert_eq!(mime_type_for("/.config.json"), "application/json");
}
