//! The directory listing renderer: a pure function from the requested
//! URL path and a folder's immediate entries to an HTML page.
//!
//! The host enumerates the folder (skipping entries whose names are not
//! valid text) and hands the names over in the order the filesystem
//! returned them; no order is imposed here.

use vstd::prelude::*;

verus! {

/// One immediate child of the listed folder.
#[derive(Debug)]
pub struct DirEntry {
    pub name: String,
    pub is_dir: bool,
}

/// The sequence with every trailing `/` removed.
pub open spec fn trim_trailing_slashes(s: Seq<char>) -> Seq<char>
    decreases s.len(),
{
    if s.len() > 0 && s.last() == '/' {
        trim_trailing_slashes(s.drop_last())
    } else {
        s
    }
}

/// Where an entry's link points: the URL path without trailing slashes,
/// a separator, and the entry's name.
pub open spec fn entry_url(url: Seq<char>, name: Seq<char>) -> Seq<char> {
    trim_trailing_slashes(url) + "/"@ + name
}

/// The parent of a URL path: everything before the last `/`, or the
/// root when that prefix is empty or no separator exists at all.
pub open spec fn parent_of(url: Seq<char>) -> Seq<char>
    decreases url.len(),
{
    if url.len() == 0 {
        "/"@
    } else if url.last() == '/' {
        if url.len() == 1 {
            "/"@
        } else {
            url.drop_last()
        }
    } else {
        parent_of(url.drop_last())
    }
}

/// The anchor rendered for one entry.
pub open spec fn anchor_of(url: Seq<char>, e: DirEntry) -> Seq<char> {
    "<a href=\""@ + entry_url(url, e.name@) + "\">"@ + e.name@ + "</a>"@
}

/// The label that tells a folder from a file.
pub open spec fn kind_label(is_dir: bool) -> Seq<char> {
    if is_dir {
        "directory"@
    } else {
        "file"@
    }
}

/// The full list item rendered for one entry.
pub open spec fn entry_line(url: Seq<char>, e: DirEntry) -> Seq<char> {
    "<li>"@ + anchor_of(url, e) + " ("@ + kind_label(e.is_dir) + ")</li>\n"@
}

/// A prefix with one entry's line appended piece by piece, exactly as
/// the renderer builds it.
pub open spec fn line_appended(prefix: Seq<char>, url: Seq<char>, e: DirEntry) -> Seq<char> {
    prefix + "<li>"@ + "<a href=\""@ + entry_url(url, e.name@) + "\">"@ + e.name@ + "</a>"@
        + " ("@ + kind_label(e.is_dir) + ")</li>\n"@
}

/// Appending the pieces one by one appends the whole line.
proof fn lemma_line_appended(prefix: Seq<char>, url: Seq<char>, e: DirEntry)
    ensures
        line_appended(prefix, url, e) == prefix + entry_line(url, e),
{
    assert(line_appended(prefix, url, e) =~= prefix + entry_line(url, e));
}

/// Concatenation of sequences is associative.
proof fn lemma_add_assoc(a: Seq<char>, b: Seq<char>, c: Seq<char>)
    ensures
        a + b + c == a + (b + c),
{
    assert(a + b + c =~= a + (b + c));
}

/// The list items of all entries, in the order they were handed in.
pub open spec fn entry_lines(url: Seq<char>, entries: Seq<DirEntry>) -> Seq<char>
    decreases entries.len(),
{
    if entries.len() == 0 {
        Seq::empty()
    } else {
        entry_lines(url, entries.drop_last()) + entry_line(url, entries.last())
    }
}

/// Everything up to and including the opening of the entry list; the
/// page is titled with the requested URL path.
pub open spec fn page_header(url: Seq<char>) -> Seq<char> {
    "<!DOCTYPE html>\n<html>\n<head>\n<meta charset=\"utf-8\">\n<title>"@ + url
        + "</title>\n<style>body{font-family:sans-serif;margin:20px;}ul{list-style:none;padding:0;}li{margin:4px 0;}</style>\n</head>\n<body>\n<h1>"@
        + url + "</h1>\n<ul>\n"@
}

/// The link back to the parent, present on every page but the root's.
pub open spec fn parent_link(url: Seq<char>) -> Seq<char> {
    if url == "/"@ {
        Seq::empty()
    } else {
        "<li><a href=\""@ + parent_of(url) + "\">..</a> (parent)</li>\n"@
    }
}

/// What closes the page.
pub open spec fn page_footer() -> Seq<char> {
    "</ul>\n</body>\n</html>"@
}

/// The whole listing page for a URL path and a folder's entries.
pub open spec fn listing_page(url: Seq<char>, entries: Seq<DirEntry>) -> Seq<char> {
    page_header(url) + parent_link(url) + entry_lines(url, entries) + page_footer()
}

/// The number of leading characters left when trailing slashes go.
fn trimmed_len(url: &str) -> (k: usize)
    ensures
        k <= url@.len(),
        trim_trailing_slashes(url@) == url@.subrange(0, k as int),
{
    let n = url.unicode_len();
    let mut k = n;
    proof {
        assert(url@.subrange(0, n as int) =~= url@);
    }
    while k > 0 && url.get_char(k - 1) == '/'
        invariant
            n == url@.len(),
            k <= n,
            trim_trailing_slashes(url@) == trim_trailing_slashes(url@.subrange(0, k as int)),
        decreases k,
    {
        proof {
            assert(url@.subrange(0, k as int).last() == url@[k - 1]);
            assert(url@.subrange(0, k as int).drop_last() =~= url@.subrange(0, k - 1));
        }
        k = k - 1;
    }
    proof {
        assert(url@.subrange(0, 0) =~= Seq::<char>::empty());
    }
    k
}

/// The link target for one entry under the given URL path.
pub fn entry_url_of(url: &str, name: &str) -> (r: String)
    ensures
        r@ == entry_url(url@, name@),
{
    let k = trimmed_len(url);
    let mut r = url.substring_char(0, k).to_owned();
    r.append("/");
    r.append(name);
    r
}

/// The parent URL path, as `parent_of` states it.
pub fn parent_url_path(url: &str) -> (r: String)
    ensures
        r@ == parent_of(url@),
{
    let n = url.unicode_len();
    let mut i = n;
    while i > 0 && url.get_char(i - 1) != '/'
        invariant
            n == url@.len(),
            i <= n,
            forall|j: int| i <= j < n ==> url@[j] != '/',
        decreases i,
    {
        i = i - 1;
    }
    proof {
        lemma_parent_cut(url@, i as int);
    }
    if i <= 1 {
        String::from_str("/")
    } else {
        url.substring_char(0, i - 1).to_owned()
    }
}

/// The parent is read off at the last separator: with no `/` in the
/// suffix past `i`, and `/` at `i - 1` (or nothing before), the parent
/// is the prefix before that separator, or the root when it is empty.
proof fn lemma_parent_cut(s: Seq<char>, i: int)
    requires
        0 <= i <= s.len(),
        forall|j: int| i <= j < s.len() ==> s[j] != '/',
        i == 0 || s[i - 1] == '/',
    ensures
        i <= 1 ==> parent_of(s) == "/"@,
        i > 1 ==> parent_of(s) == s.subrange(0, i - 1),
    decreases s.len() - i,
{
    if i == s.len() {
        if s.len() == 0 {
        } else {
            assert(s.last() == '/');
            if s.len() > 1 {
                assert(s.drop_last() =~= s.subrange(0, i - 1));
            }
        }
    } else {
        assert(s[s.len() - 1] != '/');
        assert(s.drop_last() =~= s.subrange(0, s.len() - 1));
        lemma_parent_cut(s.drop_last(), i);
        if i > 1 {
            assert(s.drop_last().subrange(0, i - 1) =~= s.subrange(0, i - 1));
        }
    }
}

/// Renders the listing page: the header titled with the URL path, a
/// parent link on every page but the root's, one line per entry in the
/// order given, and the closing of the page.
#[verifier::rlimit(50)]
pub fn generate_directory_listing(url_path: &str, entries: &Vec<DirEntry>) -> (r: String)
    ensures
        r@ == listing_page(url_path@, entries@),
{
    let mut html = String::from_str(
        "<!DOCTYPE html>\n<html>\n<head>\n<meta charset=\"utf-8\">\n<title>",
    );
    html.append(url_path);
    html.append(
        "</title>\n<style>body{font-family:sans-serif;margin:20px;}ul{list-style:none;padding:0;}li{margin:4px 0;}</style>\n</head>\n<body>\n<h1>",
    );
    html.append(url_path);
    html.append("</h1>\n<ul>\n");
    assert(html@ == page_header(url_path@));
    let is_root = url_path.unicode_len() == 1 && url_path.get_char(0) == '/';
    proof {
        reveal_strlit("/");
        if is_root {
            assert(url_path@ =~= "/"@);
        }
    }
    if !is_root {
        let p = parent_url_path(url_path);
        html.append("<li><a href=\"");
        html.append(p.as_str());
        html.append("\">..</a> (parent)</li>\n");
    }
    assert(html@ =~= page_header(url_path@) + parent_link(url_path@));
    let ghost prefix = page_header(url_path@) + parent_link(url_path@);
    let mut i: usize = 0;
    while i < entries.len()
        invariant
            prefix == page_header(url_path@) + parent_link(url_path@),
            i <= entries.len(),
            html@ == prefix + entry_lines(url_path@, entries@.take(i as int)),
        decreases entries.len() - i,
    {
        let e = &entries[i];
        let ghost before = html@;
        html.append("<li>");
        html.append("<a href=\"");
        let eu = entry_url_of(url_path, e.name.as_str());
        html.append(eu.as_str());
        html.append("\">");
        html.append(e.name.as_str());
        html.append("</a>");
        html.append(" (");
        if e.is_dir {
            html.append("directory");
        } else {
            html.append("file");
        }
        html.append(")</li>\n");
        proof {
            let line = entry_line(url_path@, entries@[i as int]);
            assert(html@ == line_appended(before, url_path@, entries@[i as int]));
            lemma_line_appended(before, url_path@, entries@[i as int]);
            assert(entries@.take(i + 1).drop_last() =~= entries@.take(i as int));
            assert(entries@.take(i + 1).last() == entries@[i as int]);
            assert(entry_lines(url_path@, entries@.take(i + 1)) == entry_lines(
                url_path@,
                entries@.take(i as int),
            ) + line);
            lemma_add_assoc(prefix, entry_lines(url_path@, entries@.take(i as int)), line);
        }
        i = i + 1;
    }
    proof {
        assert(entries@.take(entries.len() as int) =~= entries@);
    }
    html.append("</ul>\n</body>\n</html>");
    assert(html@ == listing_page(url_path@, entries@));
    html
}

/// `needle` stands in `hay` as the contiguous run starting at `k`.
pub open spec fn occurs_at(needle: Seq<char>, hay: Seq<char>, k: int) -> bool {
    0 <= k && k + needle.len() <= hay.len() && hay.subrange(k, k + needle.len()) == needle
}

/// `needle` stands somewhere inside `hay` as a contiguous run.
pub open spec fn occurs_in(needle: Seq<char>, hay: Seq<char>) -> bool {
    exists|k: int| occurs_at(needle, hay, k)
}

proof fn lemma_occurs_in_self(n: Seq<char>)
    ensures
        occurs_in(n, n),
{
    assert(n.subrange(0, 0 + n.len() as int) =~= n);
    assert(occurs_at(n, n, 0));
}

proof fn lemma_occurs_in_left(n: Seq<char>, a: Seq<char>, b: Seq<char>)
    requires
        occurs_in(n, a),
    ensures
        occurs_in(n, a + b),
{
    let k = choose|k: int| occurs_at(n, a, k);
    assert((a + b).subrange(k, k + n.len()) =~= a.subrange(k, k + n.len()));
    assert(occurs_at(n, a + b, k));
}

proof fn lemma_occurs_in_right(n: Seq<char>, a: Seq<char>, b: Seq<char>)
    requires
        occurs_in(n, b),
    ensures
        occurs_in(n, a + b),
{
    let k = choose|k: int| occurs_at(n, b, k);
    assert((a + b).subrange(a.len() + k, a.len() + k + n.len()) =~= b.subrange(k, k + n.len()));
    assert(occurs_at(n, a + b, a.len() + k));
}

/// An entry's line carries its anchor.
proof fn lemma_entry_line_has_anchor(url: Seq<char>, e: DirEntry)
    ensures
        occurs_in(anchor_of(url, e), entry_line(url, e)),
{
    let a = anchor_of(url, e);
    lemma_occurs_in_self(a);
    lemma_occurs_in_right(a, "<li>"@, a);
    lemma_occurs_in_left(a, "<li>"@ + a, " ("@);
    lemma_occurs_in_left(a, "<li>"@ + a + " ("@, kind_label(e.is_dir));
    lemma_occurs_in_left(a, "<li>"@ + a + " ("@ + kind_label(e.is_dir), ")</li>\n"@);
}

/// Each entry's anchor stands in the concatenation of all lines.
proof fn lemma_entry_lines_have_anchor(url: Seq<char>, entries: Seq<DirEntry>, i: int)
    requires
        0 <= i < entries.len(),
    ensures
        occurs_in(anchor_of(url, entries[i]), entry_lines(url, entries)),
    decreases entries.len(),
{
    let rest = entry_lines(url, entries.drop_last());
    let last_line = entry_line(url, entries.last());
    if i == entries.len() - 1 {
        lemma_entry_line_has_anchor(url, entries[i]);
        lemma_occurs_in_right(anchor_of(url, entries[i]), rest, last_line);
    } else {
        lemma_entry_lines_have_anchor(url, entries.drop_last(), i);
        lemma_occurs_in_left(anchor_of(url, entries[i]), rest, last_line);
    }
}

/// Law: the rendered page links every entry that was handed in — for
/// each entry, an anchor whose target is `entry_url` and whose text is
/// the entry's name stands somewhere in the page.
pub proof fn lemma_listing_links_all_entries(url: Seq<char>, entries: Seq<DirEntry>)
    ensures
        forall|i: int|
            0 <= i < entries.len() ==> occurs_in(
                anchor_of(url, entries[i]),
                listing_page(url, entries),
            ),
{
    assert forall|i: int| 0 <= i < entries.len() implies occurs_in(
        anchor_of(url, entries[i]),
        listing_page(url, entries),
    ) by {
        let a = anchor_of(url, entries[i]);
        lemma_entry_lines_have_anchor(url, entries, i);
        lemma_occurs_in_right(a, page_header(url) + parent_link(url), entry_lines(url, entries));
        lemma_occurs_in_left(
            a,
            page_header(url) + parent_link(url) + entry_lines(url, entries),
            page_footer(),
        );
    }
}

/// Law: every page but the root's carries the link back to the parent
/// URL path, labelled `..`.
pub proof fn lemma_nonroot_page_has_parent_link(url: Seq<char>, entries: Seq<DirEntry>)
    requires
        url != "/"@,
    ensures
        occurs_in(
            "<li><a href=\""@ + parent_of(url) + "\">..</a> (parent)</li>\n"@,
            listing_page(url, entries),
        ),
{
    let p = "<li><a href=\""@ + parent_of(url) + "\">..</a> (parent)</li>\n"@;
    lemma_occurs_in_self(p);
    lemma_occurs_in_right(p, page_header(url), parent_link(url));
    lemma_occurs_in_left(p, page_header(url) + parent_link(url), entry_lines(url, entries));
    lemma_occurs_in_left(
        p,
        page_header(url) + parent_link(url) + entry_lines(url, entries),
        page_footer(),
    );
}

} // verus!
