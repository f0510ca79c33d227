//! Images in Markdown: which links point at Confluence or Jira attachments,
//! the local file name an image is cached under, and the links rewritten to
//! the cached copies.
use vstd::prelude::*;
use sha2::Digest;
use crate::figma::url::{pairs_view, query_get, query_lookup};
use crate::pattern::{group, group_text, groups_view, replace_all_spec, replace_with, Groups, Caps};
use crate::text::{
    contains, contains_spec, eq_chars, extend_chars, find_char_from, from_chars, split_char,
    split_spec, surround, to_chars, views,
};

verus! {

/// A link to an attachment that needs the user's credentials: Confluence
/// downloads and thumbnails, the content API, Jira attachments.
pub open spec fn downloadable_spec(url: Seq<char>) -> bool {
    ||| contains_spec(url, "/download/attachments/"@)
    ||| contains_spec(url, "/download/thumbnails/"@)
    ||| contains_spec(url, "/rest/api/content/"@)
    ||| contains_spec(url, "/secure/attachment/"@)
    ||| contains_spec(url, "/rest/api/2/attachment/"@)
}

/// Whether an image link points at an attachment: see `downloadable_spec`.
pub fn is_downloadable_image_url(url: &str) -> (b: bool)
    ensures
        b == downloadable_spec(url@),
{
    let u = to_chars(url);
    contains(u.as_slice(), to_chars("/download/attachments/").as_slice()) || contains(
        u.as_slice(),
        to_chars("/download/thumbnails/").as_slice(),
    ) || contains(u.as_slice(), to_chars("/rest/api/content/").as_slice()) || contains(
        u.as_slice(),
        to_chars("/secure/attachment/").as_slice(),
    ) || contains(u.as_slice(), to_chars("/rest/api/2/attachment/").as_slice())
}

// ───────────────────────── cache file names ─────────────────────────

/// The text before the first `?`.
pub open spec fn before_query(s: Seq<char>) -> Seq<char> {
    match find_char_from(s, '?', 0) {
        Some(i) => s.take(i),
        None => s,
    }
}

/// The index of the first `attachments` or `thumbnails` segment, from `i`
/// on, that has two segments after it.
pub open spec fn attachment_segment(parts: Seq<Seq<char>>, i: int) -> Option<int>
    decreases parts.len() - i,
{
    if i < 0 || i >= parts.len() {
        None
    } else if (parts[i] == "attachments"@ || parts[i] == "thumbnails"@) && i + 2 < parts.len() {
        Some(i)
    } else {
        attachment_segment(parts, i + 1)
    }
}

/// What `sha2`'s SHA-256 gives for the UTF-8 bytes of a text.
pub uninterp spec fn sha256_spec(s: Seq<char>) -> Seq<u8>;

/// The SHA-256 digest of a text's UTF-8 bytes (crate `sha2`:
/// `Sha256::new`, `update`, `finalize`). The contract names the digest and
/// states its size, 32 bytes, which the crate's output type fixes.
#[verifier::external_body]
fn sha256_digest(s: &str) -> (r: Vec<u8>)
    ensures
        r@ == sha256_spec(s@),
        r@.len() == 32,
{
    let mut hasher = sha2::Sha256::new();
    hasher.update(s.as_bytes());
    hasher.finalize().to_vec()
}

/// A lower-case hexadecimal digit.
pub open spec fn lower_hex(d: nat) -> char {
    if d < 10 {
        ((d + 48) as u8) as char
    } else {
        ((d + 87) as u8) as char
    }
}

/// Bytes as two lower-case hexadecimal digits each.
pub open spec fn hex_bytes(b: Seq<u8>) -> Seq<char>
    decreases b.len(),
{
    if b.len() == 0 {
        seq![]
    } else {
        hex_bytes(b.drop_last()) + seq![lower_hex((b.last() / 16) as nat), lower_hex((b.last() % 16) as nat)]
    }
}

/// The file name an image is cached under: for a download link
/// (`.../attachments/<page>/<name>` or `.../thumbnails/<page>/<name>`) its
/// name; else the last path segment where it is a non-empty name with a
/// dot; else the first eight bytes of the link's SHA-256 in hexadecimal,
/// with `.png`. A query (`?...`) is dropped from a name.
pub open spec fn image_filename_spec(url: Seq<char>) -> Seq<char> {
    let parts = split_spec(url, '/');
    match attachment_segment(parts, 0) {
        Some(i) => before_query(parts[i + 2]),
        None => {
            let name = before_query(parts.last());
            if parts.len() > 0 && name.len() > 0 && contains_spec(name, "."@) {
                name
            } else {
                hex_bytes(sha256_spec(url).take(8)) + ".png"@
            }
        },
    }
}

fn before_query_exec(s: &[char]) -> (r: Vec<char>)
    ensures
        r@ == before_query(s@),
{
    proof {
        crate::text::lemma_find_char_from_bounds(s@, '?', 0);
    }
    match crate::text::find_char_from_exec(s, '?', 0) {
        Some(i) => crate::text::slice_vec(s, 0, i),
        None => crate::text::slice_vec(s, 0, s.len()),
    }
}

fn lower_hex_exec(d: u8) -> (c: char)
    requires
        d < 16,
    ensures
        c == lower_hex(d as nat),
{
    if d < 10 {
        (d + 48) as char
    } else {
        (d + 87) as char
    }
}

fn hex_prefix(b: &Vec<u8>, n: usize) -> (r: Vec<char>)
    requires
        n <= b@.len(),
    ensures
        r@ == hex_bytes(b@.take(n as int)),
{
    let mut r: Vec<char> = Vec::new();
    let mut i: usize = 0;
    while i < n
        invariant
            i <= n <= b@.len(),
            r@ == hex_bytes(b@.take(i as int)),
        decreases n - i,
    {
        let x = b[i];
        r.push(lower_hex_exec(x / 16));
        r.push(lower_hex_exec(x % 16));
        proof {
            assert(b@.take(i + 1).drop_last() =~= b@.take(i as int));
            assert(b@.take(i + 1).last() == x);
        }
        i = i + 1;
        assert(r@ =~= hex_bytes(b@.take(i as int)));
    }
    r
}

/// The file name an image is cached under: see `image_filename_spec`.
pub fn image_filename(url: &str) -> (r: String)
    ensures
        r@ == image_filename_spec(url@),
{
    let u = to_chars(url);
    let parts = split_char(u.as_slice(), '/');
    let ghost pv = views(parts@);
    let att = to_chars("attachments");
    let thumb = to_chars("thumbnails");
    let mut i: usize = 0;
    while i < parts.len()
        invariant
            i <= parts.len(),
            pv == views(parts@),
            pv == split_spec(url@, '/'),
            att@ == "attachments"@,
            thumb@ == "thumbnails"@,
            attachment_segment(pv, 0) == attachment_segment(pv, i as int),
        decreases parts.len() - i,
    {
        proof {
            assert(pv[i as int] == parts@[i as int]@);
        }
        let p = parts[i].as_slice();
        if (eq_chars(p, att.as_slice()) || eq_chars(p, thumb.as_slice())) && parts.len() - i > 2 {
            proof {
                assert(pv[i + 2] == parts@[i + 2]@);
            }
            let name = before_query_exec(parts[i + 2].as_slice());
            return from_chars(name.as_slice());
        }
        i = i + 1;
    }
    if parts.len() > 0 {
        proof {
            assert(pv.last() == parts@[parts.len() - 1]@);
        }
        let name = before_query_exec(parts[parts.len() - 1].as_slice());
        if name.len() > 0 && contains(name.as_slice(), to_chars(".").as_slice()) {
            return from_chars(name.as_slice());
        }
    }
    let digest = sha256_digest(url);
    let mut r = hex_prefix(&digest, 8);
    extend_chars(&mut r, to_chars(".png").as_slice());
    from_chars(r.as_slice())
}

// ───────────────────────── rewriting image links ─────────────────────────

/// A Markdown image: alternative text, then link.
pub open spec fn image_link_pattern() -> Seq<char> {
    r"!\[([^\]]*)\]\(([^)]+)\)"@
}

/// The links of the downloadable images, in order of appearance.
pub open spec fn downloadable_links(caps: Seq<Caps>) -> Seq<Seq<char>>
    decreases caps.len(),
{
    if caps.len() == 0 {
        seq![]
    } else if downloadable_spec(group(caps.last(), 2)) {
        downloadable_links(caps.drop_last()).push(group(caps.last(), 2))
    } else {
        downloadable_links(caps.drop_last())
    }
}

/// The links of the images that need downloading.
pub open spec fn image_urls_spec(md: Seq<char>) -> Seq<Seq<char>> {
    let p = image_link_pattern();
    if crate::pattern::regex_compiles(p) {
        downloadable_links(crate::pattern::regex_captures(p, md))
    } else {
        seq![]
    }
}

/// Lists the links of the images that need downloading: see
/// `image_urls_spec`.
pub fn downloadable_image_urls(md: &str) -> (r: Vec<String>)
    ensures
        r@.map_values(|s: String| s@) == image_urls_spec(md@),
{
    match crate::pattern::regex_scan(r"!\[([^\]]*)\]\(([^)]+)\)", md) {
        None => Vec::new(),
        Some((_gaps, caps)) => {
            let ghost cv = crate::pattern::caps_view(caps@);
            let mut out: Vec<String> = Vec::new();
            let mut k: usize = 0;
            while k < caps.len()
                invariant
                    k <= caps.len(),
                    cv == crate::pattern::caps_view(caps@),
                    out@.map_values(|s: String| s@) == downloadable_links(cv.take(k as int)),
                decreases caps.len() - k,
            {
                let ghost prev = out@.map_values(|s: String| s@);
                proof {
                    assert(cv[k as int] == groups_view(caps@[k as int]));
                    assert(cv.take(k + 1).drop_last() =~= cv.take(k as int));
                    assert(cv.take(k + 1).last() == cv[k as int]);
                }
                let url = from_chars(group_text(&caps[k], 2).as_slice());
                if is_downloadable_image_url(url.as_str()) {
                    let ghost u = url@;
                    out.push(url);
                    assert(out@.map_values(|s: String| s@) =~= prev.push(u));
                }
                k = k + 1;
            }
            assert(cv.take(caps.len() as int) =~= cv);
            out
        },
    }
}

/// An image link pointed at its cached copy where the image needed
/// downloading and a copy was made (`cached` maps links to local paths;
/// the later entry for a link wins).
pub open spec fn local_image_step(cached: Seq<(Seq<char>, Seq<char>)>) -> spec_fn(Caps) -> Seq<
    char,
> {
    |c: Caps|
        {
            let url = group(c, 2);
            let target = if downloadable_spec(url) {
                match query_get(cached, url) {
                    Some(path) => path,
                    None => url,
                }
            } else {
                url
            };
            "!["@ + group(c, 1) + "]("@ + target + ")"@
        }
}

/// The Markdown with image links pointed at their cached copies.
pub open spec fn rewrite_images_spec(md: Seq<char>, cached: Seq<(Seq<char>, Seq<char>)>) -> Seq<
    char,
> {
    replace_all_spec(image_link_pattern(), md, local_image_step(cached))
}

/// Points image links at their cached copies: see `rewrite_images_spec`.
/// `cached` holds, for each link that was downloaded, the local path of
/// the copy; a link that failed to download is left out of it and keeps
/// its URL.
pub fn rewrite_images(md: &str, cached: &Vec<(String, String)>) -> (r: String)
    ensures
        r@ == rewrite_images_spec(md@, pairs_view(cached@)),
{
    let f = |c: &Groups| -> (v: Vec<char>)
        ensures
            v@ == (local_image_step(pairs_view(cached@)))(groups_view(*c)),
        {
            let url = group_text(c, 2);
            let target = if is_downloadable_image_url(from_chars(url.as_slice()).as_str()) {
                match query_lookup(cached, url.as_slice()) {
                    Some(path) => path,
                    None => url,
                }
            } else {
                url
            };
            let mut v = surround("![", group_text(c, 1).as_slice(), "](");
            extend_chars(&mut v, target.as_slice());
            extend_chars(&mut v, to_chars(")").as_slice());
            v
        };
    replace_with(r"!\[([^\]]*)\]\(([^)]+)\)", md, f, Ghost(local_image_step(pairs_view(cached@))))
}

} // verus!
