use file_server::DirEntry;
use file_server::listing::entry_url_of;
use file_server::listing::generate_directory_listing;
use file_server::listing::parent_url_path;

fn entry(name: &str, is_dir: bool) -> DirEntry {
    DirEntry { name: String::from(name), is_dir }
}

#[test]
fn root_listing_exact_page() {
    let entries = vec![entry("a.txt", false), entry("sub", true)];
    let page = generate_directory_listing("/", &entries);
    let expected = "<!DOCTYPE html>\n<html>\n<head>\n<meta charset=\"utf-8\">\n<title>/</title>\n<style>body{font-family:sans-serif;margin:20px;}ul{list-style:none;padding:0;}li{margin:4px 0;}</style>\n</head>\n<body>\n<h1>/</h1>\n<ul>\n<li><a href=\"/a.txt\">a.txt</a> (file)</li>\n<li><a href=\"/sub\">sub</a> (directory)</li>\n</ul>\n</body>\n</html>";
    assert_eq!(page, expected);
}

#[test]
fn root_listing_has_no_parent_link() {
    let page = generate_directory_listing("/", &vec![entry("x", false)]);
    assert_eq!(page.matches("..</a>").count(), 0);
}

#[test]
fn non_root_listing_has_exactly_one_parent_link() {
    let entries = vec![entry("x", false), entry("y", true)];
    let page = generate_directory_listing("/sub", &entries);
    assert_eq!(page.matches("..</a>").count(), 1);
    assert!(page.contains("<li><a href=\"/\">..</a> (parent)</li>\n"));
    assert!(page.contains("<li><a href=\"/sub/x\">x</a> (file)</li>\n"));
    assert!(page.contains("<li><a href=\"/sub/y\">y</a> (directory)</li>\n"));
}

#[test]
fn nested_listing_parent_is_prefix() {
    let page = generate_directory_listing("/a/b", &vec![]);
    assert!(page.contains("<li><a href=\"/a\">..</a> (parent)</li>\n"));
}

#[test]
fn trailing_slash_links_do_not_double_separators() {
    let page = generate_directory_listing("/sub/", &vec![entry("n.css", false)]);
    assert!(page.contains("<a href=\"/sub/n.css\">n.css</a>"));
}

#[test]
fn listing_is_titled_with_url_path() {
    let page = generate_directory_listing("/a/b", &vec![]);
    assert!(page.contains("<title>/a/b</title>"));
    assert!(page.contains("<h1>/a/b</h1>"));
}

#[test]
fn listing_keeps_given_order() {
    let entries = vec![entry("zeta", false), entry("alpha", false), entry("mid", true)];
    let page = generate_directory_listing("/", &entries);
    let z = page.find("\">zeta</a>").unwrap();
    let a = page.find("\">alpha</a>").unwrap();
    let m = page.find("\">mid</a>").unwrap();
    assert!(z < a && a < m);
}

#[test]
fn linked_names_match_given_entries() {
    let names = ["one.html", "two", "three.json", "four"];
    let entries: Vec<DirEntry> = names.iter().map(|n| entry(n, false)).collect();
    let page = generate_directory_listing("/root", &entries);
    for n in names.iter() {
        let anchor = format!("<a href=\"/root/{}\">{}</a>", n, n);
        assert_eq!(page.matches(anchor.as_str()).count(), 1);
    }
    let links = page.matches("<li><a href=\"").count();
    assert_eq!(links, names.len() + 1);
}

#[test]
fn empty_directory_lists_nothing() {
    let page = generate_directory_listing("/", &vec![]);
    assert!(page.contains("<ul>\n</ul>"));
    assert_eq!(page.matches("<li>").count(), 0);
}

#[test]
fn parent_url_path_cases() {
    assert_eq!(parent_url_path("/a/b"), "/a");
    assert_eq!(parent_url_path("/a"), "/");
    assert_eq!(parent_url_path("/"), "/");
    assert_eq!(parent_url_path("plain"), "/");
    assert_eq!(parent_url_path("/a/b/"), "/a/b");
    assert_eq!(parent_url_path("a/b"), "a");
}

#[test]
fn entry_url_of_cases() {
    assert_eq!(entry_url_of("/", "f.txt"), "/f.txt");
    assert_eq!(entry_url_of("/sub", "f.txt"), "/sub/f.txt");
    assert_eq!(entry_url_of("/sub/", "f.txt"), "/sub/f.txt");
    assert_eq!(entry_url_of("/sub///", "f.txt"), "/sub/f.txt");
}
