//! Request routing for Jira and Confluence: which token a URL is sent
//! with, and the URLs of the REST calls.
use vstd::prelude::*;
use crate::figma::url::{url_encode, url_encode_spec};
use crate::jira::config::Config;
use crate::text::{
    extend_chars, find, find_char_from, find_char_from_exec, find_spec, from_chars, join,
    join_spec, signed_decimal, signed_decimal_spec, slice_vec, to_chars, trim_end_char,
    trim_end_char_spec, views,
};

verus! {

/// The host of a URL: what follows `://` up to the next `/`; the whole
/// text where there is no `://`.
pub open spec fn host_spec(url: Seq<char>) -> Seq<char> {
    match find_spec(url, "://"@) {
        Some(i) => {
            let rest = url.skip(i + 3);
            match find_char_from(rest, '/', 0) {
                Some(j) => rest.take(j),
                None => rest,
            }
        },
        None => url,
    }
}

/// Reads the host of a URL: see `host_spec`.
pub fn extract_host(url: &str) -> (r: String)
    ensures
        r@ == host_spec(url@),
{
    let u = to_chars(url);
    let sep = to_chars("://");
    proof {
        reveal_strlit("://");
    }
    match find(u.as_slice(), sep.as_slice()) {
        Some(start) => {
            proof {
                crate::text::lemma_find_from_bounds(u@, sep@, 0);
                assert(sep@.len() == 3);
            }
            assert(start + 3 <= u.len());
            let rest = slice_vec(u.as_slice(), start + 3, u.len());
            assert(rest@ =~= u@.skip(start + 3));
            proof {
                crate::text::lemma_find_char_from_bounds(rest@, '/', 0);
            }
            match find_char_from_exec(rest.as_slice(), '/', 0) {
                Some(end) => from_chars(slice_vec(rest.as_slice(), 0, end).as_slice()),
                None => from_chars(rest.as_slice()),
            }
        },
        None => from_chars(u.as_slice()),
    }
}

/// The tokens and the hosts they belong to.
pub struct Credentials {
    pub jira_token: String,
    pub wiki_token: String,
    pub jira_host: String,
    pub wiki_host: String,
}

/// The header a URL is sent with: the Jira token for the Jira host, the
/// Confluence token for the Confluence host, the Jira token for any other
/// host; no header where the chosen token is missing.
pub open spec fn auth_spec(c: Credentials, url: Seq<char>) -> (Seq<char>, Seq<char>) {
    let host = host_spec(url);
    if host == c.jira_host@ && c.jira_token@.len() > 0 {
        ("Authorization"@, "Bearer "@ + c.jira_token@)
    } else if host == c.wiki_host@ && c.wiki_token@.len() > 0 {
        ("Authorization"@, "Bearer "@ + c.wiki_token@)
    } else if c.jira_token@.len() > 0 {
        ("Authorization"@, "Bearer "@ + c.jira_token@)
    } else {
        (Seq::<char>::empty(), Seq::<char>::empty())
    }
}

fn bearer(token: &String) -> (r: (String, String))
    ensures
        r.0@ == "Authorization"@,
        r.1@ == "Bearer "@ + token@,
{
    let mut v = to_chars("Bearer ");
    extend_chars(&mut v, to_chars(token.as_str()).as_slice());
    (from_chars(to_chars("Authorization").as_slice()), from_chars(v.as_slice()))
}

impl Credentials {
    /// The tokens of the settings, with the hosts of the Jira and
    /// Confluence site URLs.
    pub fn new(cfg: &Config) -> (r: Credentials)
        ensures
            r.jira_token@ == cfg.jira_token@,
            r.wiki_token@ == cfg.wiki_token@,
            r.jira_host@ == host_spec(cfg.base_url_jira@),
            r.wiki_host@ == host_spec(cfg.base_url_wiki@),
    {
        Credentials {
            jira_token: from_chars(to_chars(cfg.jira_token.as_str()).as_slice()),
            wiki_token: from_chars(to_chars(cfg.wiki_token.as_str()).as_slice()),
            jira_host: extract_host(cfg.base_url_jira.as_str()),
            wiki_host: extract_host(cfg.base_url_wiki.as_str()),
        }
    }

    /// The header a URL is sent with: see `auth_spec`.
    pub fn auth_header(&self, url: &str) -> (r: (String, String))
        ensures
            (r.0@, r.1@) == auth_spec(*self, url@),
    {
        let host = to_chars(extract_host(url).as_str());
        let jira_host = to_chars(self.jira_host.as_str());
        let wiki_host = to_chars(self.wiki_host.as_str());
        let jt = to_chars(self.jira_token.as_str());
        let wt = to_chars(self.wiki_token.as_str());
        if crate::text::eq_chars(host.as_slice(), jira_host.as_slice()) && jt.len() > 0 {
            return bearer(&self.jira_token);
        }
        if crate::text::eq_chars(host.as_slice(), wiki_host.as_slice()) && wt.len() > 0 {
            return bearer(&self.wiki_token);
        }
        if jt.len() > 0 {
            return bearer(&self.jira_token);
        }
        proof {
            reveal_strlit("");
        }
        (String::new(), String::new())
    }

    /// The header for downloading an image, if one is sent at all.
    pub fn auth_for_url(&self, url: &str) -> (r: Option<(String, String)>)
        ensures
            auth_spec(*self, url@).0.len() == 0 <==> r is None,
            r matches Some((k, v)) ==> (k@, v@) == auth_spec(*self, url@),
    {
        let (key, val) = self.auth_header(url);
        if to_chars(key.as_str()).len() == 0 {
            None
        } else {
            Some((key, val))
        }
    }
}

/// The Confluence token is only ever sent to the Confluence host (where
/// the two services have different tokens).
pub proof fn law_wiki_token_stays_on_wiki_host(c: Credentials, url: Seq<char>)
    requires
        c.wiki_token@ != c.jira_token@,
        c.wiki_token@.len() > 0,
        auth_spec(c, url).1 == "Bearer "@ + c.wiki_token@,
    ensures
        host_spec(url) == c.wiki_host@,
{
    let bearer = "Bearer "@;
    let h = host_spec(url);
    if h == c.jira_host@ && c.jira_token@.len() > 0 || !(h == c.wiki_host@
        && c.wiki_token@.len() > 0) && c.jira_token@.len() > 0 {
        assert((bearer + c.wiki_token@).skip(bearer.len() as int) =~= c.wiki_token@);
        assert((bearer + c.jira_token@).skip(bearer.len() as int) =~= c.jira_token@);
    } else if !(h == c.wiki_host@ && c.wiki_token@.len() > 0) {
        assert((bearer + c.wiki_token@).len() > 0);
    }
}

/// A request to the Confluence host carries the Confluence token where
/// it is set and the two services are on different hosts.
pub proof fn law_wiki_host_gets_wiki_token(c: Credentials, url: Seq<char>)
    requires
        host_spec(url) == c.wiki_host@,
        c.wiki_host@ != c.jira_host@,
        c.wiki_token@.len() > 0,
    ensures
        auth_spec(c, url) == ("Authorization"@, "Bearer "@ + c.wiki_token@),
{
}

// ───────────────────────── Jira URLs ─────────────────────────

/// The agile API root of a Jira API URL: the part before `/rest/api/` with
/// `/rest/agile/1.0`; the URL itself where it has no `/rest/api/`.
pub open spec fn agile_base_spec(base_jira: Seq<char>) -> Seq<char> {
    match find_spec(base_jira, "/rest/api/"@) {
        Some(i) => base_jira.take(i) + "/rest/agile/1.0"@,
        None => base_jira,
    }
}

/// The agile API root: see `agile_base_spec`.
pub fn agile_base(base_jira: &str) -> (r: String)
    ensures
        r@ == agile_base_spec(base_jira@),
{
    let b = to_chars(base_jira);
    match find(b.as_slice(), to_chars("/rest/api/").as_slice()) {
        Some(i) => {
            proof {
                crate::text::lemma_find_from_bounds(b@, "/rest/api/"@, 0);
            }
            let mut v = slice_vec(b.as_slice(), 0, i);
            extend_chars(&mut v, to_chars("/rest/agile/1.0").as_slice());
            from_chars(v.as_slice())
        },
        None => from_chars(b.as_slice()),
    }
}

/// `?expand=` and the expansions, where there are any.
pub open spec fn expand_suffix(expand: Seq<char>) -> Seq<char> {
    if expand.len() == 0 {
        Seq::<char>::empty()
    } else {
        "?expand="@ + expand
    }
}

fn cat3(a: &str, b: &str, c: &str) -> (r: Vec<char>)
    ensures
        r@ == a@ + b@ + c@,
{
    let mut v = to_chars(a);
    extend_chars(&mut v, to_chars(b).as_slice());
    extend_chars(&mut v, to_chars(c).as_slice());
    v
}

fn push_expand(v: &mut Vec<char>, expand: &str)
    ensures
        final(v)@ == old(v)@ + expand_suffix(expand@),
{
    let e = to_chars(expand);
    if e.len() > 0 {
        extend_chars(v, to_chars("?expand=").as_slice());
        extend_chars(v, e.as_slice());
    } else {
        assert(old(v)@ + Seq::<char>::empty() =~= old(v)@);
    }
}

/// The URL of an issue, with the fields to expand.
pub fn issue_url(base_jira: &str, key: &str, expand: &str) -> (r: String)
    ensures
        r@ == base_jira@ + "/issue/"@ + key@ + expand_suffix(expand@),
{
    let mut v = cat3(base_jira, "/issue/", key);
    push_expand(&mut v, expand);
    from_chars(v.as_slice())
}

/// The URL of an issue search: the JQL percent-encoded, then the page size.
pub fn search_issues_url(base_jira: &str, jql: &str, max_results: i32) -> (r: String)
    ensures
        r@ == base_jira@ + "/search?jql="@ + url_encode_spec(jql@) + "&maxResults="@
            + signed_decimal_spec(max_results as int),
{
    let mut v = to_chars(base_jira);
    extend_chars(&mut v, to_chars("/search?jql=").as_slice());
    extend_chars(&mut v, to_chars(url_encode(jql).as_str()).as_slice());
    extend_chars(&mut v, to_chars("&maxResults=").as_slice());
    extend_chars(&mut v, signed_decimal(max_results).as_slice());
    from_chars(v.as_slice())
}

/// The URL of a top-level Jira collection (`issue` to create issues in,
/// `project` to list projects).
pub fn collection_url(base_jira: &str, name: &str) -> (r: String)
    ensures
        r@ == base_jira@ + "/"@ + name@,
{
    from_chars(cat3(base_jira, "/", name).as_slice())
}

/// The URL of an issue's sub-resource (`comment`, `transitions`), or of
/// the issue itself where `sub` is empty.
pub open spec fn issue_sub_url(base_jira: Seq<char>, key: Seq<char>, sub: Seq<char>) -> Seq<char> {
    if sub.len() == 0 {
        base_jira + "/issue/"@ + key
    } else {
        base_jira + "/issue/"@ + key + "/"@ + sub
    }
}

/// The URL of an issue's sub-resource: see `issue_sub_url`.
pub fn issue_resource_url(base_jira: &str, key: &str, sub: &str) -> (r: String)
    ensures
        r@ == issue_sub_url(base_jira@, key@, sub@),
{
    let mut v = cat3(base_jira, "/issue/", key);
    let s = to_chars(sub);
    if s.len() > 0 {
        extend_chars(&mut v, to_chars("/").as_slice());
        extend_chars(&mut v, s.as_slice());
    }
    from_chars(v.as_slice())
}

/// The URL of the boards, of one project where a key is given (the key
/// percent-encoded).
pub open spec fn boards_url_spec(agile: Seq<char>, project_key: Seq<char>) -> Seq<char> {
    if project_key.len() == 0 {
        agile + "/board"@
    } else {
        agile + "/board"@ + "?projectKeyOrId="@ + url_encode_spec(project_key)
    }
}

/// The URL of the boards: see `boards_url_spec`.
pub fn boards_url(agile: &str, project_key: &str) -> (r: String)
    ensures
        r@ == boards_url_spec(agile@, project_key@),
{
    let mut v = to_chars(agile);
    extend_chars(&mut v, to_chars("/board").as_slice());
    if to_chars(project_key).len() > 0 {
        extend_chars(&mut v, to_chars("?projectKeyOrId=").as_slice());
        extend_chars(&mut v, to_chars(url_encode(project_key).as_str()).as_slice());
    }
    from_chars(v.as_slice())
}

/// The URL of a board's sprints.
pub fn sprints_url(agile: &str, board_id: i32) -> (r: String)
    ensures
        r@ == agile@ + "/board/"@ + signed_decimal_spec(board_id as int) + "/sprint"@,
{
    let mut v = to_chars(agile);
    extend_chars(&mut v, to_chars("/board/").as_slice());
    extend_chars(&mut v, signed_decimal(board_id).as_slice());
    extend_chars(&mut v, to_chars("/sprint").as_slice());
    from_chars(v.as_slice())
}

// ───────────────────────── Confluence URLs ─────────────────────────

/// The URL of a page, with the fields to expand.
pub fn page_url(base_api: &str, id: &str, expand: &str) -> (r: String)
    ensures
        r@ == base_api@ + "/"@ + id@ + expand_suffix(expand@),
{
    let mut v = cat3(base_api, "/", id);
    push_expand(&mut v, expand);
    from_chars(v.as_slice())
}

/// The CQL of a page search: the query as given, else a title and a space
/// condition joined by ` AND `; `None` where there is nothing to search by.
pub open spec fn search_cql(title: Seq<char>, cql: Seq<char>, space: Seq<char>) -> Option<Seq<char>> {
    if cql.len() > 0 {
        Some(cql)
    } else {
        let parts = (if title.len() > 0 {
            seq!["title~\""@ + title + "\""@]
        } else {
            seq![]
        }) + (if space.len() > 0 {
            seq!["space=\""@ + space + "\""@]
        } else {
            seq![]
        });
        if parts.len() > 0 {
            Some(join_spec(parts, " AND "@))
        } else {
            None
        }
    }
}

/// The URL of a page search: the CQL percent-encoded (where there is one)
/// and the page size.
pub open spec fn search_pages_url_spec(
    base_api: Seq<char>,
    title: Seq<char>,
    cql: Seq<char>,
    space: Seq<char>,
    max_results: int,
) -> Seq<char> {
    let limit = "limit="@ + signed_decimal_spec(max_results);
    let params = match search_cql(title, cql, space) {
        Some(q) => "cql="@ + url_encode_spec(q) + "&"@ + limit,
        None => limit,
    };
    base_api + "/search?"@ + params
}

/// The URL of a page search: see `search_pages_url_spec`.
pub fn search_pages_url(base_api: &str, title: &str, cql: &str, space: &str, max_results: i32) -> (r:
    String)
    ensures
        r@ == search_pages_url_spec(base_api@, title@, cql@, space@, max_results as int),
{
    let q: Option<Vec<char>> = if to_chars(cql).len() > 0 {
        Some(to_chars(cql))
    } else {
        let mut parts: Vec<Vec<char>> = Vec::new();
        if to_chars(title).len() > 0 {
            parts.push(cat3("title~\"", title, "\""));
        }
        if to_chars(space).len() > 0 {
            parts.push(cat3("space=\"", space, "\""));
        }
        proof {
            let t = if title@.len() > 0 {
                seq!["title~\""@ + title@ + "\""@]
            } else {
                seq![]
            };
            let s = if space@.len() > 0 {
                seq!["space=\""@ + space@ + "\""@]
            } else {
                seq![]
            };
            assert(views(parts@) =~= t + s);
        }
        if parts.len() > 0 {
            Some(join(&parts, to_chars(" AND ").as_slice()))
        } else {
            None
        }
    };
    let mut v = to_chars(base_api);
    extend_chars(&mut v, to_chars("/search?").as_slice());
    match q {
        Some(query) => {
            extend_chars(&mut v, to_chars("cql=").as_slice());
            let enc = url_encode(from_chars(query.as_slice()).as_str());
            extend_chars(&mut v, to_chars(enc.as_str()).as_slice());
            extend_chars(&mut v, to_chars("&").as_slice());
        },
        None => {},
    }
    extend_chars(&mut v, to_chars("limit=").as_slice());
    extend_chars(&mut v, signed_decimal(max_results).as_slice());
    from_chars(v.as_slice())
}

/// The URL of a page export in a format.
pub fn export_url(base_api: &str, id: &str, format: &str) -> (r: String)
    ensures
        r@ == base_api@ + "/"@ + id@ + "/export/"@ + format@,
{
    let mut v = cat3(base_api, "/", id);
    extend_chars(&mut v, to_chars("/export/").as_slice());
    extend_chars(&mut v, to_chars(format).as_slice());
    from_chars(v.as_slice())
}

/// Whether a failed export is retried at the PDF export action: only a
/// PDF export is.
pub fn export_has_fallback(format: &str) -> (b: bool)
    ensures
        b == (format@ == "pdf"@),
{
    crate::text::eq_chars(to_chars(format).as_slice(), to_chars("pdf").as_slice())
}

/// The URL of the PDF export action, tried where the export plugin fails.
pub fn export_fallback_url(base_wiki: &str, id: &str) -> (r: String)
    ensures
        r@ == trim_end_char_spec(base_wiki@, '/') + "/spacesexportpdf/exportpdf.action?pageId="@
            + id@,
{
    let mut v = trim_end_char(to_chars(base_wiki).as_slice(), '/');
    extend_chars(&mut v, to_chars("/spacesexportpdf/exportpdf.action?pageId=").as_slice());
    extend_chars(&mut v, to_chars(id).as_slice());
    from_chars(v.as_slice())
}

/// The file an export is written to: the one asked for, else
/// `page_<id>.<format>`.
pub fn export_output_path(output: &str, id: &str, format: &str) -> (r: String)
    ensures
        output@.len() > 0 ==> r@ == output@,
        output@.len() == 0 ==> r@ == "page_"@ + id@ + "."@ + format@,
{
    if to_chars(output).len() > 0 {
        return from_chars(to_chars(output).as_slice());
    }
    let mut v = cat3("page_", id, ".");
    extend_chars(&mut v, to_chars(format).as_slice());
    from_chars(v.as_slice())
}

/// The URL of the space list.
pub fn spaces_url(base_wiki: &str) -> (r: String)
    ensures
        r@ == trim_end_char_spec(base_wiki@, '/') + "/rest/api/space"@,
{
    let mut v = trim_end_char(to_chars(base_wiki).as_slice(), '/');
    extend_chars(&mut v, to_chars("/rest/api/space").as_slice());
    from_chars(v.as_slice())
}

} // verus!
