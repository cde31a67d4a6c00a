//! The compute side of a small directory-serving HTTP server: request
//! routing decisions, the HTML directory listing, the request log line and
//! the port search range. Sockets, disk reads and responses stay outside
//! the library.

use vstd::prelude::*;
use vstd::string::*;

verus! {

/// What serving a directory URL does first.
#[derive(Debug, Clone, Copy, PartialEq, Eq, Structural)]
pub enum DirRoute {
    /// The directory has an `index.html`: serve that file instead.
    UseIndex,
    /// No index: answer with the generated directory listing.
    Listing,
}

/// The decision for a URL that names a directory: its index page when one
/// exists, else a generated listing. `None` when the URL is no directory.
pub fn route_dir(is_dir: bool, has_index: bool) -> (r: Option<DirRoute>)
    ensures
        r == if is_dir {
            if has_index {
                Some(DirRoute::UseIndex)
            } else {
                Some(DirRoute::Listing)
            }
        } else {
            None::<DirRoute>
        },
{
    if is_dir {
        if has_index {
            Some(DirRoute::UseIndex)
        } else {
            Some(DirRoute::Listing)
        }
    } else {
        None
    }
}

/// The content type a path's extension maps to, with `application/octet-stream`
/// standing in where the table knows nothing.
pub uninterp spec fn mime_of(path: Seq<char>) -> Seq<char>;

/// Relies on `mime_guess::from_path(..).first_or_octet_stream()`: the guess
/// reads only the path's extension against a fixed table, no disk access, so
/// the result is a function of the path alone; the octet-stream fallback
/// keeps it non-empty.
#[verifier::external_body]
fn guess_content_type(path: &str) -> (r: String)
    ensures
        r@ == mime_of(path@),
        r@.len() > 0,
{
    mime_guess::from_path(path).first_or_octet_stream().to_string()
}

/// How a file URL is answered.
pub enum FileServe {
    /// The file was read; send its bytes under this content type.
    Content { content_type: String },
    /// The file exists but could not be read: an internal error.
    ReadError,
    /// No such file: not found.
    Missing,
}

/// The decision for a path expected to hold a file: its content under the
/// type its extension maps to when it exists and was read, an internal
/// error when the read failed, not-found otherwise.
pub fn serve_file(exists: bool, is_file: bool, read_ok: bool, path: &str) -> (r: FileServe)
    ensures
        match r {
            FileServe::Content { content_type } => {
                &&& exists && is_file && read_ok
                &&& content_type@ == mime_of(path@)
                &&& content_type@.len() > 0
            },
            FileServe::ReadError => exists && is_file && !read_ok,
            FileServe::Missing => !(exists && is_file),
        },
{
    if exists && is_file {
        if read_ok {
            FileServe::Content { content_type: guess_content_type(path) }
        } else {
            FileServe::ReadError
        }
    } else {
        FileServe::Missing
    }
}

/// The link target of one listing entry.
pub open spec fn href_of(url_path: Seq<char>, name: Seq<char>) -> Seq<char> {
    if url_path.len() == 0 {
        name
    } else {
        url_path + "/"@ + name
    }
}

/// One `<li>` entry of the listing.
pub open spec fn listing_item(url_path: Seq<char>, name: Seq<char>) -> Seq<char> {
    "<li><a href=\""@ + href_of(url_path, name) + "\">"@ + name + "</a></li>"@
}

/// All entries, in directory order.
pub open spec fn listing_items(url_path: Seq<char>, names: Seq<Seq<char>>) -> Seq<char>
    decreases names.len(),
{
    if names.len() == 0 {
        Seq::empty()
    } else {
        listing_item(url_path, names[0]) + listing_items(url_path, names.skip(1))
    }
}

/// The whole listing page.
pub open spec fn listing_html(url_path: Seq<char>, names: Seq<Seq<char>>) -> Seq<char> {
    "<html><body><h1>Directory listing for /"@ + url_path + "</h1><ul>"@ + listing_items(
        url_path,
        names,
    ) + "</ul></body></html>"@
}

proof fn lemma_listing_items_push(url_path: Seq<char>, names: Seq<Seq<char>>, x: Seq<char>)
    ensures
        listing_items(url_path, names.push(x)) == listing_items(url_path, names) + listing_item(
            url_path,
            x,
        ),
    decreases names.len(),
{
    let p = names.push(x);
    if names.len() == 0 {
        assert(p[0] == x);
        assert(p.skip(1) =~= Seq::<Seq<char>>::empty());
        assert(listing_items(url_path, p.skip(1)) == Seq::<char>::empty());
        assert(listing_items(url_path, p) =~= listing_item(url_path, x));
        assert(listing_items(url_path, names) == Seq::<char>::empty());
        assert(listing_items(url_path, names) + listing_item(url_path, x) =~= listing_item(
            url_path,
            x,
        ));
    } else {
        lemma_listing_items_push(url_path, names.skip(1), x);
        assert(p[0] == names[0]);
        assert(p.skip(1) =~= names.skip(1).push(x));
        assert(listing_items(url_path, p) == listing_item(url_path, names[0]) + (listing_items(
            url_path,
            names.skip(1),
        ) + listing_item(url_path, x)));
        assert(listing_item(url_path, names[0]) + (listing_items(url_path, names.skip(1))
            + listing_item(url_path, x)) =~= (listing_item(url_path, names[0]) + listing_items(
            url_path,
            names.skip(1),
        )) + listing_item(url_path, x));
    }
}

/// Renders the HTML directory listing for `url_path`, one anchor per entry
/// name, in the order the directory reported them.
pub fn generate_directory_listing(url_path: &str, names: &Vec<String>) -> (r: String)
    ensures
        r@ == listing_html(url_path@, names@.map_values(|s: String| s@)),
{
    let ghost views = names@.map_values(|s: String| s@);
    let mut s = String::new();
    s.append("<html><body><h1>Directory listing for /");
    s.append(url_path);
    s.append("</h1><ul>");
    proof {
        assert(views.take(0) =~= Seq::<Seq<char>>::empty());
        assert(s@ =~= "<html><body><h1>Directory listing for /"@ + url_path@ + "</h1><ul>"@
            + listing_items(url_path@, views.take(0)));
    }
    let n = names.len();
    let mut i: usize = 0;
    while i < n
        invariant
            0 <= i <= n,
            n == names@.len(),
            views == names@.map_values(|s: String| s@),
            s@ == "<html><body><h1>Directory listing for /"@ + url_path@ + "</h1><ul>"@
                + listing_items(url_path@, views.take(i as int)),
        decreases n - i,
    {
        let ghost s0 = s@;
        s.append("<li><a href=\"");
        if !url_path.is_empty() {
            s.append(url_path);
            s.append("/");
        }
        s.append(names[i].as_str());
        s.append("\">");
        s.append(names[i].as_str());
        s.append("</a></li>");
        proof {
            assert(s@ =~= s0 + listing_item(url_path@, views[i as int]));
            lemma_listing_items_push(url_path@, views.take(i as int), views[i as int]);
            assert(views.take(i as int).push(views[i as int]) =~= views.take(i as int + 1));
            assert(s@ =~= "<html><body><h1>Directory listing for /"@ + url_path@ + "</h1><ul>"@
                + listing_items(url_path@, views.take(i as int + 1)));
        }
        i += 1;
    }
    s.append("</ul></body></html>");
    proof {
        assert(views.take(n as int) =~= views);
        assert(s@ =~= listing_html(url_path@, views));
    }
    s
}

/// One request log line: the client address (or `unknown`), the method and
/// the URL.
pub fn request_log_line(client: &Option<String>, method: &str, url: &str) -> (r: String)
    ensures
        r@ == "["@ + (match client {
            Some(a) => a@,
            None => "unknown"@,
        }) + "] "@ + method@ + " "@ + url@,
{
    let mut s = String::new();
    s.append("[");
    match client {
        Some(a) => s.append(a.as_str()),
        None => s.append("unknown"),
    }
    s.append("] ");
    s.append(method);
    s.append(" ");
    s.append(url);
    proof {
        assert(s@ =~= "["@ + (match client {
            Some(a) => a@,
            None => "unknown"@,
        }) + "] "@ + method@ + " "@ + url@);
    }
    s
}

/// The ports a server tries, in order: `start` up to (not including) 9000.
pub fn port_candidates(start: u16) -> (r: Vec<u16>)
    ensures
        start < 9000 ==> r@.len() == 9000 - start,
        start >= 9000 ==> r@.len() == 0,
        forall|i: int| 0 <= i < r@.len() ==> r@[i] == start + i,
{
    let mut r: Vec<u16> = Vec::new();
    let mut p = start;
    while p < 9000
        invariant
            start <= p <= 9000 || (p == start && start >= 9000),
            p >= start,
            r@.len() == p - start,
            forall|i: int| 0 <= i < r@.len() ==> r@[i] == start + i,
        decreases 9000 - p,
    {
        r.push(p);
        p += 1;
    }
    r
}

} // verus!
