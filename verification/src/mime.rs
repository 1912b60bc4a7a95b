//! MIME type selection: the extension of a URL path's final segment,
//! looked up in a small fixed table.

use vstd::prelude::*;

verus! {

/// The final segment of a path: the characters after the last `/`, or
/// the whole path if it has none.
pub open spec fn last_segment(s: Seq<char>) -> Seq<char>
    decreases s.len(),
{
    if s.len() == 0 {
        s
    } else if s.last() == '/' {
        Seq::empty()
    } else {
        last_segment(s.drop_last()).push(s.last())
    }
}

/// The extension of a file name: the characters after the last `.`,
/// provided that dot exists and is not the name's first character.
pub open spec fn ext_of_name(name: Seq<char>) -> Option<Seq<char>>
    decreases name.len(),
{
    if name.len() == 0 {
        None
    } else if name.last() == '.' {
        if name.len() == 1 {
            None
        } else {
            Some(Seq::empty())
        }
    } else {
        match ext_of_name(name.drop_last()) {
            None => None,
            Some(e) => Some(e.push(name.last())),
        }
    }
}

/// The extension a URL path carries: that of its final segment.
pub open spec fn url_extension(url: Seq<char>) -> Option<Seq<char>> {
    ext_of_name(last_segment(url))
}

/// The fixed extension-to-MIME table; anything it does not know falls
/// back to `application/octet-stream`.
pub open spec fn mime_of(ext: Option<Seq<char>>) -> Seq<char> {
    match ext {
        None => "application/octet-stream"@,
        Some(e) => if e == "html"@ {
            "text/html"@
        } else if e == "css"@ {
            "text/css"@
        } else if e == "js"@ {
            "application/javascript"@
        } else if e == "jpg"@ || e == "jpeg"@ {
            "image/jpeg"@
        } else if e == "png"@ {
            "image/png"@
        } else if e == "gif"@ {
            "image/gif"@
        } else if e == "svg"@ {
            "image/svg+xml"@
        } else if e == "json"@ {
            "application/json"@
        } else {
            "application/octet-stream"@
        },
    }
}

/// Character-by-character string comparison.
fn str_eq(a: &str, b: &str) -> (r: bool)
    ensures
        r == (a@ == b@),
{
    let la = a.unicode_len();
    let lb = b.unicode_len();
    if la != lb {
        return false;
    }
    let mut i: usize = 0;
    while i < la
        invariant
            la == a@.len(),
            la == b@.len(),
            i <= la,
            forall|j: int| 0 <= j < i ==> a@[j] == b@[j],
        decreases la - i,
    {
        if a.get_char(i) != b.get_char(i) {
            return false;
        }
        i += 1;
    }
    proof {
        assert(a@ =~= b@);
    }
    true
}

/// A nonempty sequence not ending in `/` has a nonempty final segment.
proof fn lemma_last_segment_nonempty(s: Seq<char>)
    requires
        s.len() > 0,
        s.last() != '/',
    ensures
        last_segment(s).len() > 0,
{
}

/// Splitting off a slash-free suffix: the final segment is the final
/// segment of the prefix followed by that suffix.
proof fn lemma_last_segment_split(s: Seq<char>, i: int)
    requires
        0 <= i <= s.len(),
        forall|j: int| i <= j < s.len() ==> s[j] != '/',
    ensures
        last_segment(s) == last_segment(s.subrange(0, i)) + s.subrange(i, s.len() as int),
    decreases s.len() - i,
{
    if i == s.len() {
        assert(s.subrange(0, i) =~= s);
        assert(last_segment(s) =~= last_segment(s) + s.subrange(i, s.len() as int));
    } else {
        assert(s[s.len() - 1] != '/');
        assert(s.drop_last() =~= s.subrange(0, s.len() - 1));
        lemma_last_segment_split(s.drop_last(), i);
        assert(s.drop_last().subrange(0, i) =~= s.subrange(0, i));
        assert(last_segment(s) =~= last_segment(s.subrange(0, i)) + s.subrange(
            i,
            s.len() as int,
        ));
    }
}

/// A name with no dot past its first character has no extension.
proof fn lemma_ext_none(name: Seq<char>)
    requires
        forall|j: int| 1 <= j < name.len() ==> name[j] != '.',
    ensures
        ext_of_name(name) is None,
    decreases name.len(),
{
    if name.len() > 0 && name.last() != '.' {
        lemma_ext_none(name.drop_last());
    }
}

/// A name of the shape `stem.ext`, with a nonempty stem and a dot-free
/// extension, has exactly that extension.
proof fn lemma_ext_some(stem: Seq<char>, ext: Seq<char>)
    requires
        stem.len() > 0,
        forall|j: int| 0 <= j < ext.len() ==> ext[j] != '.',
    ensures
        ext_of_name(stem + seq!['.'] + ext) == Some(ext),
    decreases ext.len(),
{
    let whole = stem + seq!['.'] + ext;
    if ext.len() == 0 {
        assert(whole.last() == '.');
        assert(whole.len() >= 2);
        assert(ext_of_name(whole) == Some(Seq::<char>::empty()));
        assert(Seq::<char>::empty() =~= ext);
    } else {
        assert(whole.last() == ext.last());
        assert(whole.last() != '.');
        lemma_ext_some(stem, ext.drop_last());
        assert(whole.drop_last() =~= stem + seq!['.'] + ext.drop_last());
        assert(ext_of_name(whole) == Some(ext.drop_last().push(ext.last())));
        assert(ext.drop_last().push(ext.last()) =~= ext);
    }
}

/// A name that is a dot followed by dot-free characters has no
/// extension: the dot is the first character.
proof fn lemma_ext_leading_dot(ext: Seq<char>)
    requires
        forall|j: int| 0 <= j < ext.len() ==> ext[j] != '.',
    ensures
        ext_of_name(seq!['.'] + ext) is None,
    decreases ext.len(),
{
    let whole = seq!['.'] + ext;
    if ext.len() == 0 {
        assert(whole.len() == 1);
    } else {
        assert(whole.last() == ext.last());
        lemma_ext_leading_dot(ext.drop_last());
        assert(whole.drop_last() =~= seq!['.'] + ext.drop_last());
    }
}

/// The extension of the URL path's final segment, as `url_extension`
/// states it: the characters after the segment's last `.`, unless the
/// segment has no dot, or its only dot is its first character.
pub fn extension_of_url(url: &str) -> (r: Option<String>)
    ensures
        (match r {
            Some(e) => url_extension(url@) == Some(e@),
            None => url_extension(url@) is None,
        }),
{
    let n = url.unicode_len();
    let mut i: usize = n;
    while i > 0
        invariant
            n == url@.len(),
            i <= n,
            forall|j: int| i <= j < n ==> url@[j] != '/' && url@[j] != '.',
        decreases i,
    {
        let c = url.get_char(i - 1);
        if c == '/' {
            proof {
                lemma_last_segment_split(url@, i as int);
                assert(last_segment(url@.subrange(0, i as int)).len() == 0);
                assert(last_segment(url@) =~= url@.subrange(i as int, n as int));
                lemma_ext_none(url@.subrange(i as int, n as int));
            }
            return None;
        }
        if c == '.' {
            if i == 1 || url.get_char(i - 2) == '/' {
                proof {
                    let start = i - 1;
                    lemma_last_segment_split(url@, start as int);
                    assert(last_segment(url@.subrange(0, start as int)).len() == 0);
                    assert(last_segment(url@) =~= seq!['.'] + url@.subrange(i as int, n as int));
                    lemma_ext_leading_dot(url@.subrange(i as int, n as int));
                }
                return None;
            }
            let e = url.substring_char(i, n);
            proof {
                lemma_last_segment_split(url@, i - 1);
                let stem = last_segment(url@.subrange(0, i - 1));
                let prefix = url@.subrange(0, i - 1);
                assert(prefix.last() == url@[i - 2]);
                lemma_last_segment_nonempty(prefix);
                assert(url@.subrange(i - 1, n as int) =~= seq!['.'] + url@.subrange(
                    i as int,
                    n as int,
                ));
                assert(last_segment(url@) =~= stem + seq!['.'] + url@.subrange(
                    i as int,
                    n as int,
                ));
                lemma_ext_some(stem, url@.subrange(i as int, n as int));
            }
            return Some(e.to_owned());
        }
        i = i - 1;
    }
    proof {
        lemma_last_segment_split(url@, 0);
        assert(last_segment(url@) =~= url@);
        lemma_ext_none(url@);
    }
    None
}

/// The MIME type to serve a file under, from the extension of the URL
/// path's final segment and the fixed table.
pub fn mime_type_for(url: &str) -> (r: String)
    ensures
        r@ == mime_of(url_extension(url@)),
{
    match extension_of_url(url) {
        None => String::from_str("application/octet-stream"),
        Some(e) => {
            let es = e.as_str();
            if str_eq(es, "html") {
                String::from_str("text/html")
            } else if str_eq(es, "css") {
                String::from_str("text/css")
            } else if str_eq(es, "js") {
                String::from_str("application/javascript")
            } else if str_eq(es, "jpg") || str_eq(es, "jpeg") {
                String::from_str("image/jpeg")
            } else if str_eq(es, "png") {
                String::from_str("image/png")
            } else if str_eq(es, "gif") {
                String::from_str("image/gif")
            } else if str_eq(es, "svg") {
                String::from_str("image/svg+xml")
            } else if str_eq(es, "json") {
                String::from_str("application/json")
            } else {
                String::from_str("application/octet-stream")
            }
        },
    }
}

} // verus!
