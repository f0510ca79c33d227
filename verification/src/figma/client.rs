//! Figma API requests: the URLs of the calls, and how a rate-limited
//! request is retried.
use vstd::prelude::*;
use crate::figma::url::{url_encode, url_encode_spec};
use crate::html::markup::{all_digits, digits_value};
use crate::text::{extend_chars, from_chars, join, join_spec, signed_decimal, signed_decimal_spec, to_chars, views};

verus! {

/// The API root.
pub const BASE_URL: &'static str = "https://api.figma.com";

/// The longest wait between retries, in seconds.
pub const MAX_RETRY_DELAY: u64 = 120;

/// How often a rate-limited request is retried.
pub const MAX_RETRIES: u32 = 3;

/// std `u64::from_str`: an optional `+`, then one ASCII digit or more,
/// whose value fits a `u64`.
pub open spec fn parse_u64_spec(s: Seq<char>) -> Option<nat> {
    let d = if s.len() > 0 && s[0] == '+' {
        s.skip(1)
    } else {
        s
    };
    if d.len() > 0 && all_digits(d) && digits_value(d) <= u64::MAX {
        Some(digits_value(d))
    } else {
        None
    }
}

/// The wait a `Retry-After` header asks for: its number of seconds, at
/// most `MAX_RETRY_DELAY`; 5 where it is empty, not a number, or zero.
pub open spec fn retry_after_spec(header: Seq<char>) -> nat {
    if header.len() == 0 {
        5
    } else {
        match parse_u64_spec(header) {
            Some(v) => if v > MAX_RETRY_DELAY {
                MAX_RETRY_DELAY as nat
            } else if v > 0 {
                v
            } else {
                5
            },
            None => 5,
        }
    }
}

/// Parses a `u64` as std's `str::parse::<u64>` does: see `parse_u64_spec`.
pub fn parse_u64(s: &[char]) -> (r: Option<u64>)
    ensures
        match r {
            Some(v) => parse_u64_spec(s@) == Some(v as nat),
            None => parse_u64_spec(s@) is None,
        },
{
    let start: usize = if s.len() > 0 && s[0] == '+' {
        1
    } else {
        0
    };
    let ghost d = if s@.len() > 0 && s@[0] == '+' {
        s@.skip(1)
    } else {
        s@
    };
    assert(d =~= s@.skip(start as int));
    if start >= s.len() {
        return None;
    }
    let mut v: u64 = 0;
    let mut i: usize = start;
    while i < s.len()
        invariant
            start <= i <= s.len(),
            start < s.len(),
            d == s@.skip(start as int),
            d == (if s@.len() > 0 && s@[0] == '+' { s@.skip(1) } else { s@ }),
            v as nat == digits_value(s@.subrange(start as int, i as int)),
            forall|k: int| start <= k < i ==> crate::html::markup::is_digit(#[trigger] s@[k]),
        decreases s.len() - i,
    {
        let c = s[i];
        if !('0' <= c && c <= '9') {
            proof {
                assert(!crate::html::markup::is_digit(d[i - start]));
                assert(!all_digits(d));
            }
            return None;
        }
        let dv: u64 = (c as u32 - '0' as u32) as u64;
        proof {
            assert(s@.subrange(start as int, i + 1).drop_last() =~= s@.subrange(
                start as int,
                i as int,
            ));
        }
        let next = match v.checked_mul(10) {
            None => None,
            Some(t) => t.checked_add(dv),
        };
        match next {
            None => {
                proof {
                    lemma_prefix_le(d, i - start + 1);
                    assert(d.take(i - start + 1) =~= s@.subrange(start as int, i + 1));
                }
                return None;
            },
            Some(n) => {
                v = n;
            },
        }
        i = i + 1;
    }
    assert(s@.subrange(start as int, s.len() as int) =~= d);
    assert forall|k: int| 0 <= k < d.len() implies crate::html::markup::is_digit(#[trigger] d[k]) by {
        assert(d[k] == s@[k + start]);
    }
    Some(v)
}

proof fn lemma_prefix_le(d: Seq<char>, n: int)
    requires
        0 <= n <= d.len(),
    ensures
        digits_value(d.take(n)) <= digits_value(d),
    decreases d.len() - n,
{
    if n < d.len() {
        lemma_prefix_le(d, n + 1);
        assert(d.take(n + 1).drop_last() =~= d.take(n));
    } else {
        assert(d.take(n) =~= d);
    }
}

/// The wait a `Retry-After` header asks for: see `retry_after_spec`.
pub fn parse_retry_after(header: &str) -> (r: u64)
    ensures
        r as nat == retry_after_spec(header@),
{
    let h = to_chars(header);
    if h.len() == 0 {
        return 5;
    }
    match parse_u64(h.as_slice()) {
        Some(v) => {
            if v > MAX_RETRY_DELAY {
                MAX_RETRY_DELAY
            } else if v > 0 {
                v
            } else {
                5
            }
        },
        None => 5,
    }
}

/// A rate-limited request waits at least a second and at most
/// `MAX_RETRY_DELAY` seconds, whatever the server's header says.
pub proof fn law_retry_wait_bounded(header: Seq<char>)
    ensures
        1 <= retry_after_spec(header) <= MAX_RETRY_DELAY,
{
}

/// What to do after a request was rate limited on attempt `attempt`
/// (counted from 0).
pub enum RetryAction {
    /// Wait this many seconds, then try again.
    Wait(u64),
    /// Stop: the retries are used up.
    GiveUp,
}

/// After a rate-limited attempt: give up on the last allowed attempt,
/// else wait as long as the `Retry-After` header asks.
pub fn on_rate_limited(attempt: u32, retry_after: &str) -> (r: RetryAction)
    ensures
        attempt >= MAX_RETRIES ==> r is GiveUp,
        attempt < MAX_RETRIES ==> (r matches RetryAction::Wait(d) && d as nat == retry_after_spec(
            retry_after@,
        )),
{
    if attempt >= MAX_RETRIES {
        RetryAction::GiveUp
    } else {
        RetryAction::Wait(parse_retry_after(retry_after))
    }
}

/// The message of the error a request ends with once its retries are used
/// up.
pub fn rate_limit_message() -> (r: String)
    ensures
        r@ == "rate limited after 3 retries"@,
{
    from_chars(to_chars("rate limited after 3 retries").as_slice())
}

// ───────────────────────── URLs ─────────────────────────

/// The URL of a file, read to a depth.
pub fn file_url(base: &str, file_key: &str, depth: i32) -> (r: String)
    ensures
        r@ == base@ + "/v1/files/"@ + file_key@ + "?depth="@ + signed_decimal_spec(depth as int),
{
    let mut v = to_chars(base);
    extend_chars(&mut v, to_chars("/v1/files/").as_slice());
    extend_chars(&mut v, to_chars(file_key).as_slice());
    extend_chars(&mut v, to_chars("?depth=").as_slice());
    extend_chars(&mut v, signed_decimal(depth).as_slice());
    from_chars(v.as_slice())
}

/// The node ids percent-encoded and joined by commas.
pub open spec fn encoded_ids(ids: Seq<Seq<char>>) -> Seq<char> {
    join_spec(ids.map_values(|id: Seq<char>| url_encode_spec(id)), ","@)
}

fn encoded_ids_exec(node_ids: &Vec<String>) -> (r: Vec<char>)
    ensures
        r@ == encoded_ids(node_ids@.map_values(|s: String| s@)),
{
    let ghost ids = node_ids@.map_values(|s: String| s@);
    let mut parts: Vec<Vec<char>> = Vec::new();
    let mut i: usize = 0;
    while i < node_ids.len()
        invariant
            i <= node_ids.len(),
            ids == node_ids@.map_values(|s: String| s@),
            views(parts@) == ids.map_values(|id: Seq<char>| url_encode_spec(id)).take(i as int),
        decreases node_ids.len() - i,
    {
        let ghost prev = views(parts@);
        let e = to_chars(url_encode(node_ids[i].as_str()).as_str());
        parts.push(e);
        proof {
            assert(views(parts@) =~= prev.push(e@));
            assert(views(parts@) =~= ids.map_values(|id: Seq<char>| url_encode_spec(id)).take(i + 1));
        }
        i = i + 1;
    }
    assert(ids.map_values(|id: Seq<char>| url_encode_spec(id)).take(node_ids.len() as int)
        =~= ids.map_values(|id: Seq<char>| url_encode_spec(id)));
    join(&parts, to_chars(",").as_slice())
}

/// The URL of some nodes of a file.
pub fn file_nodes_url(base: &str, file_key: &str, node_ids: &Vec<String>) -> (r: String)
    ensures
        r@ == base@ + "/v1/files/"@ + file_key@ + "/nodes?ids="@ + encoded_ids(
            node_ids@.map_values(|s: String| s@),
        ),
{
    let mut v = to_chars(base);
    extend_chars(&mut v, to_chars("/v1/files/").as_slice());
    extend_chars(&mut v, to_chars(file_key).as_slice());
    extend_chars(&mut v, to_chars("/nodes?ids=").as_slice());
    extend_chars(&mut v, encoded_ids_exec(node_ids).as_slice());
    from_chars(v.as_slice())
}

/// The URL of a sub-resource of a file (`components`, `styles`,
/// `comments`, `variables/local`).
pub fn file_resource_url(base: &str, file_key: &str, resource: &str) -> (r: String)
    ensures
        r@ == base@ + "/v1/files/"@ + file_key@ + "/"@ + resource@,
{
    let mut v = to_chars(base);
    extend_chars(&mut v, to_chars("/v1/files/").as_slice());
    extend_chars(&mut v, to_chars(file_key).as_slice());
    extend_chars(&mut v, to_chars("/").as_slice());
    extend_chars(&mut v, to_chars(resource).as_slice());
    from_chars(v.as_slice())
}

/// The URL of a team's projects.
pub fn team_projects_url(base: &str, team_id: &str) -> (r: String)
    ensures
        r@ == base@ + "/v1/teams/"@ + team_id@ + "/projects"@,
{
    let mut v = to_chars(base);
    extend_chars(&mut v, to_chars("/v1/teams/").as_slice());
    extend_chars(&mut v, to_chars(team_id).as_slice());
    extend_chars(&mut v, to_chars("/projects").as_slice());
    from_chars(v.as_slice())
}

/// The URL of a project's files.
pub fn project_files_url(base: &str, project_id: &str) -> (r: String)
    ensures
        r@ == base@ + "/v1/projects/"@ + project_id@ + "/files"@,
{
    let mut v = to_chars(base);
    extend_chars(&mut v, to_chars("/v1/projects/").as_slice());
    extend_chars(&mut v, to_chars(project_id).as_slice());
    extend_chars(&mut v, to_chars("/files").as_slice());
    from_chars(v.as_slice())
}

/// The URL that asks for rendered images of nodes. The scale comes as the
/// text it is written with in the query.
pub fn image_urls_url(
    base: &str,
    file_key: &str,
    node_ids: &Vec<String>,
    format: &str,
    scale: &str,
) -> (r: String)
    ensures
        r@ == base@ + "/v1/images/"@ + file_key@ + "?ids="@ + encoded_ids(
            node_ids@.map_values(|s: String| s@),
        ) + "&format="@ + format@ + "&scale="@ + scale@,
{
    let mut v = to_chars(base);
    extend_chars(&mut v, to_chars("/v1/images/").as_slice());
    extend_chars(&mut v, to_chars(file_key).as_slice());
    extend_chars(&mut v, to_chars("?ids=").as_slice());
    extend_chars(&mut v, encoded_ids_exec(node_ids).as_slice());
    extend_chars(&mut v, to_chars("&format=").as_slice());
    extend_chars(&mut v, to_chars(format).as_slice());
    extend_chars(&mut v, to_chars("&scale=").as_slice());
    extend_chars(&mut v, to_chars(scale).as_slice());
    from_chars(v.as_slice())
}

} // verus!
