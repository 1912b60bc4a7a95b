use file_server::DirEntry;
use file_server::HttpResponse;
use file_server::ResolvedTarget;
use file_server::ResponseBody;
use file_server::handle_request;
use file_server::listing::generate_directory_listing;

fn body_bytes(r: &HttpResponse) -> Vec<u8> {
    match &r.body {
        ResponseBody::Bytes(b) => b.clone(),
        ResponseBody::Text(t) => t.as_bytes().to_vec(),
    }
}

fn body_text(r: &HttpResponse) -> String {
    match &r.body {
        ResponseBody::Bytes(_) => panic!("expected a text body"),
        ResponseBody::Text(t) => t.clone(),
    }
}

#[test]
fn existing_file_served_with_its_bytes_and_type() {
    let content: Vec<u8> = b"<h1>welcome</h1>".to_vec();
    let r = handle_request(
        "/index.html",
        ResolvedTarget::FileContent { content: content.clone() },
    );
    assert_eq!(r.status, 200);
    assert_eq!(r.content_type, "text/html");
    assert_eq!(body_bytes(&r), content);
}

#[test]
fn file_without_extension_served_as_octet_stream() {
    let content: Vec<u8> = vec![0u8, 159, 146, 150];
    let r = handle_request("/blob", ResolvedTarget::FileContent { content: content.clone() });
    assert_eq!(r.status, 200);
    assert_eq!(r.content_type, "application/octet-stream");
    assert_eq!(body_bytes(&r), content);
}

#[test]
fn directory_served_as_rendered_listing() {
    let entries = vec![
        DirEntry { name: String::from("a.txt"), is_dir: false },
        DirEntry { name: String::from("docs"), is_dir: true },
    ];
    let expected = generate_directory_listing(
        "/sub",
        &vec![
            DirEntry { name: String::from("a.txt"), is_dir: false },
            DirEntry { name: String::from("docs"), is_dir: true },
        ],
    );
    let r = handle_request("/sub", ResolvedTarget::Directory { entries });
    assert_eq!(r.status, 200);
    assert_eq!(r.content_type, "text/html; charset=utf-8");
    let body = body_text(&r);
    assert_eq!(body, expected);
    assert!(body.contains("<a href=\"/sub/a.txt\">a.txt</a>"));
    assert!(body.contains("<a href=\"/sub/docs\">docs</a>"));
    assert_eq!(body.matches("..</a>").count(), 1);
}

#[test]
fn missing_path_yields_404_with_plain_text_body() {
    let r = handle_request("/nope.txt", ResolvedTarget::NotFound);
    assert_eq!(r.status, 404);
    assert_eq!(r.content_type, "text/plain; charset=utf-8");
    let body = body_text(&r);
    assert_eq!(body, "File not found");
    assert!(!body.is_empty());
}

#[test]
fn file_read_failure_yields_500_with_message() {
    let r = handle_request(
        "/index.html",
        ResolvedTarget::FileError { message: String::from("permission denied") },
    );
    assert_eq!(r.status, 500);
    assert_eq!(r.content_type, "text/plain; charset=utf-8");
    assert_eq!(body_text(&r), "Error reading file: permission denied");
}

#[test]
fn directory_read_failure_yields_500_with_message() {
    let r = handle_request(
        "/sub",
        ResolvedTarget::DirectoryError { message: String::from("interrupted") },
    );
    assert_eq!(r.status, 500);
    assert_eq!(r.content_type, "text/plain; charset=utf-8");
    assert_eq!(body_text(&r), "Error listing directory: interrupted");
}
