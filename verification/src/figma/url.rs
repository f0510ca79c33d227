//! Figma URLs and file keys: what a Figma link names, and the links derived
//! from it.
use vstd::prelude::*;
use vstd::utf8::encode_utf8;
use crate::figma::error::{parse_error, FigmaError};
use crate::text::{
    contains, contains_spec, eq_chars, extend_chars, find, find_char_from, find_char_from_exec,
    find_spec, from_chars, join, join_spec, lemma_find_char_from_bounds, trim_start_char_spec,
    trim_end_char_spec, lemma_find_from_bounds, push_char, replace_char,
    replace_char_spec, slice_vec, split_char, split_from, split_once_char, split_once_spec, split_spec,
    to_chars, trim, trim_char, trim_char_spec, trim_spec, views, find_from, matches_at,
    trim_start_spec, trim_end_spec, is_ws, lemma_contains_subrange,
};

verus! {

// ───────────────────────── percent-encoding ─────────────────────────

/// The value of an ASCII hexadecimal digit.
pub open spec fn hex_value(b: u8) -> Option<nat> {
    if 48 <= b <= 57 {
        Some((b - 48) as nat)
    } else if 65 <= b <= 70 {
        Some((b - 55) as nat)
    } else if 97 <= b <= 102 {
        Some((b - 87) as nat)
    } else {
        None
    }
}

/// The byte that two bytes after a `%` stand for, as std's
/// `u8::from_str_radix(.., 16)` reads them: two hexadecimal digits, or a `+`
/// sign and one digit.
pub open spec fn escape_value(b1: u8, b2: u8) -> Option<nat> {
    if b1 == 43 {
        hex_value(b2)
    } else {
        match (hex_value(b1), hex_value(b2)) {
            (Some(h), Some(l)) => Some(h * 16 + l),
            _ => None,
        }
    }
}

/// Percent-decoding of the bytes `b` from index `i` on: every `%XY` that
/// stands for a byte becomes that byte, every other byte stays; each
/// resulting byte becomes the character with that code.
pub open spec fn url_decode_from(b: Seq<u8>, i: int) -> Seq<char>
    decreases b.len() - i,
{
    if i < 0 || i >= b.len() {
        seq![]
    } else if b[i] == 37 && i + 2 < b.len() && escape_value(b[i + 1], b[i + 2]) is Some {
        seq![(escape_value(b[i + 1], b[i + 2]).unwrap() as u8) as char] + url_decode_from(b, i + 3)
    } else {
        seq![b[i] as char] + url_decode_from(b, i + 1)
    }
}

/// Percent-decoding of the UTF-8 bytes of `s`.
pub open spec fn url_decode_spec(s: Seq<char>) -> Seq<char> {
    url_decode_from(encode_utf8(s), 0)
}

fn hex_digit_value(b: u8) -> (r: Option<u8>)
    ensures
        match r {
            Some(v) => hex_value(b) == Some(v as nat) && v < 16,
            None => hex_value(b) is None,
        },
{
    if 48 <= b && b <= 57 {
        Some(b - 48)
    } else if 65 <= b && b <= 70 {
        Some(b - 55)
    } else if 97 <= b && b <= 102 {
        Some(b - 87)
    } else {
        None
    }
}

fn escape_value_exec(b1: u8, b2: u8) -> (r: Option<u8>)
    ensures
        match r {
            Some(v) => escape_value(b1, b2) == Some(v as nat),
            None => escape_value(b1, b2) is None,
        },
{
    if b1 == 43 {
        hex_digit_value(b2)
    } else {
        match (hex_digit_value(b1), hex_digit_value(b2)) {
            (Some(h), Some(l)) => Some(h * 16 + l),
            _ => None,
        }
    }
}

/// Percent-decodes a string: each `%` followed by two bytes that read as a
/// hexadecimal byte value becomes that byte; every byte becomes the
/// character with its code.
pub fn url_decode(s: &str) -> (r: String)
    ensures
        r@ == url_decode_spec(s@),
{
    let b = s.as_bytes();
    let mut r = String::new();
    let mut i: usize = 0;
    while i < b.len()
        invariant
            i <= b.len(),
            b@ == encode_utf8(s@),
            r@ + url_decode_from(b@, i as int) == url_decode_spec(s@),
        decreases b.len() - i,
    {
        let ghost prev = r@;
        if b[i] == 37 && b.len() - i > 2 {
            match escape_value_exec(b[i + 1], b[i + 2]) {
                Some(v) => {
                    crate::text::push_char(&mut r, v as char);
                    assert(prev + url_decode_from(b@, i as int) =~= r@ + url_decode_from(
                        b@,
                        i + 3,
                    ));
                    i = i + 3;
                    continue ;
                },
                None => {},
            }
        }
        crate::text::push_char(&mut r, b[i] as char);
        assert(prev + url_decode_from(b@, i as int) =~= r@ + url_decode_from(b@, i + 1));
        i = i + 1;
    }
    assert(r@ + url_decode_from(b@, i as int) =~= r@);
    r
}

/// Bytes that percent-encoding leaves as they are.
pub open spec fn is_unreserved(b: u8) -> bool {
    (65 <= b <= 90) || (97 <= b <= 122) || (48 <= b <= 57) || b == 45 || b == 95 || b == 46
        || b == 126
}

/// The upper-case hexadecimal digit for `d < 16`.
pub open spec fn hex_digit_char(d: nat) -> char {
    if d < 10 {
        ((d + 48) as u8) as char
    } else {
        ((d + 55) as u8) as char
    }
}

/// Percent-encoding of one byte.
pub open spec fn encode_byte(b: u8) -> Seq<char> {
    if is_unreserved(b) {
        seq![b as char]
    } else {
        seq!['%', hex_digit_char((b / 16) as nat), hex_digit_char((b % 16) as nat)]
    }
}

/// Percent-encoding of the bytes `b`.
pub open spec fn url_encode_bytes(b: Seq<u8>) -> Seq<char>
    decreases b.len(),
{
    if b.len() == 0 {
        seq![]
    } else {
        url_encode_bytes(b.drop_last()) + encode_byte(b.last())
    }
}

/// Percent-encoding of the UTF-8 bytes of `s`.
pub open spec fn url_encode_spec(s: Seq<char>) -> Seq<char> {
    url_encode_bytes(encode_utf8(s))
}

fn hex_char(d: u8) -> (c: char)
    requires
        d < 16,
    ensures
        c == hex_digit_char(d as nat),
{
    if d < 10 {
        (d + 48) as char
    } else {
        (d + 55) as char
    }
}

/// The bytes of ASCII characters.
pub open spec fn ascii_bytes(c: Seq<char>) -> Seq<u8> {
    c.map_values(|x: char| x as u8)
}

/// The characters with the codes of bytes.
pub open spec fn byte_chars(b: Seq<u8>) -> Seq<char> {
    b.map_values(|x: u8| x as char)
}

proof fn lemma_encode_front(b: Seq<u8>)
    requires
        b.len() > 0,
    ensures
        url_encode_bytes(b) == encode_byte(b[0]) + url_encode_bytes(b.drop_first()),
    decreases b.len(),
{
    if b.len() == 1 {
        assert(b.drop_last() =~= Seq::<u8>::empty());
        assert(b.drop_first() =~= Seq::<u8>::empty());
        assert(url_encode_bytes(b.drop_first()) =~= Seq::<char>::empty());
        assert(url_encode_bytes(b.drop_last()) =~= Seq::<char>::empty());
    } else {
        lemma_encode_front(b.drop_last());
        assert(b.drop_last().drop_first() =~= b.drop_first().drop_last());
        assert(b.drop_first().last() == b.last());
    }
}

proof fn lemma_encode_byte_ascii(x: u8)
    ensures
        vstd::utf8::is_ascii_chars(encode_byte(x)),
        ascii_bytes(encode_byte(x)).len() == encode_byte(x).len(),
{
    assert(x / 16 < 16) by (bit_vector);
    assert(x % 16 < 16) by (bit_vector);
}

proof fn lemma_encode_ascii(b: Seq<u8>)
    ensures
        vstd::utf8::is_ascii_chars(url_encode_bytes(b)),
    decreases b.len(),
{
    if b.len() > 0 {
        lemma_encode_ascii(b.drop_last());
        lemma_encode_byte_ascii(b.last());
        let e = url_encode_bytes(b);
        let x = url_encode_bytes(b.drop_last());
        let y = encode_byte(b.last());
        assert forall|i: int| 0 <= i < e.len() implies '\0' <= #[trigger] e[i] <= '\u{7f}' by {
            if i < x.len() {
                assert(e[i] == x[i]);
            } else {
                assert(e[i] == y[i - x.len()]);
            }
        }
    }
}

proof fn lemma_decode_shift(u: Seq<u8>, r: Seq<u8>, j: int)
    requires
        0 <= j,
    ensures
        url_decode_from(u + r, u.len() + j) == url_decode_from(r, j),
    decreases r.len() - j,
{
    let b = u + r;
    let i = u.len() + j;
    if j < r.len() {
        assert(b[i] == r[j]);
        if j + 1 < r.len() {
            assert(b[i + 1] == r[j + 1]);
        }
        if j + 2 < r.len() {
            assert(b[i + 2] == r[j + 2]);
        }
        lemma_decode_shift(u, r, j + 1);
        if j + 3 <= r.len() {
            lemma_decode_shift(u, r, j + 3);
        }
    }
}

proof fn lemma_hex_roundtrip(d: nat)
    requires
        d < 16,
    ensures
        hex_value((hex_digit_char(d) as u8)) == Some(d),
        (hex_digit_char(d) as u8) != 43,
        (hex_digit_char(d) as u8) != 37,
{
}

proof fn lemma_decode_encoded(b: Seq<u8>)
    ensures
        url_decode_from(ascii_bytes(url_encode_bytes(b)), 0) == byte_chars(b),
    decreases b.len(),
{
    if b.len() == 0 {
        assert(ascii_bytes(url_encode_bytes(b)) =~= Seq::<u8>::empty());
        assert(byte_chars(b) =~= Seq::<char>::empty());
    } else {
        lemma_encode_front(b);
        let x = b[0];
        let unit = ascii_bytes(encode_byte(x));
        let rest = ascii_bytes(url_encode_bytes(b.drop_first()));
        let all = ascii_bytes(url_encode_bytes(b));
        assert(all =~= unit + rest);
        lemma_decode_encoded(b.drop_first());
        assert(byte_chars(b) =~= seq![x as char] + byte_chars(b.drop_first()));
        if is_unreserved(x) {
            assert(unit =~= seq![x]);
            assert(all[0] == x);
            assert(x != 37);
            lemma_decode_shift(unit, rest, 0);
            assert(url_decode_from(all, 0) =~= seq![x as char] + url_decode_from(all, 1));
        } else {
            let hi = (x / 16) as nat;
            let lo = (x % 16) as nat;
            assert(x / 16 < 16) by (bit_vector);
            assert(x % 16 < 16) by (bit_vector);
            assert(x == (x / 16) * 16 + x % 16) by (bit_vector);
            lemma_hex_roundtrip(hi);
            lemma_hex_roundtrip(lo);
            assert(unit =~= seq![37u8, hex_digit_char(hi) as u8, hex_digit_char(lo) as u8]);
            assert(all[0] == 37u8);
            assert(all[1] == hex_digit_char(hi) as u8);
            assert(all[2] == hex_digit_char(lo) as u8);
            assert(escape_value(all[1], all[2]) == Some(hi * 16 + lo));
            lemma_decode_shift(unit, rest, 0);
            assert(url_decode_from(all, 0) =~= seq![x as char] + url_decode_from(all, 3));
        }
    }
}

/// Percent-decoding undoes percent-encoding: decoding what `url_encode`
/// makes of a text gives back the text's UTF-8 bytes, one character per
/// byte (so an ASCII text comes back as it was).
pub proof fn law_decode_undoes_encode(s: Seq<char>)
    ensures
        url_decode_spec(url_encode_spec(s)) == byte_chars(encode_utf8(s)),
{
    let e = url_encode_spec(s);
    lemma_encode_ascii(encode_utf8(s));
    vstd::utf8::is_ascii_chars_encode_utf8(e);
    assert(encode_utf8(e) =~= ascii_bytes(e));
    lemma_decode_encoded(encode_utf8(s));
}

/// Percent-decoding undoes percent-encoding of an ASCII text: decoding
/// what `url_encode` makes of it gives the text back. (Other text comes
/// back as its UTF-8 bytes, one character each: see
/// `law_decode_undoes_encode`.)
pub proof fn law_decode_undoes_encode_ascii(s: Seq<char>)
    requires
        vstd::utf8::is_ascii_chars(s),
    ensures
        url_decode_spec(url_encode_spec(s)) == s,
{
    law_decode_undoes_encode(s);
    vstd::utf8::is_ascii_chars_encode_utf8(s);
    assert forall|i: int| 0 <= i < s.len() implies byte_chars(encode_utf8(s))[i] == s[i] by {
        let c = s[i];
        assert('\0' <= c <= '\u{7f}');
        assert(encode_utf8(s)[i] == c as u8);
    }
    assert(byte_chars(encode_utf8(s)) =~= s);
}

/// No `c` in `s`.
pub open spec fn free_of(s: Seq<char>, c: char) -> bool {
    forall|i: int| 0 <= i < s.len() ==> s[i] != c
}

proof fn lemma_first_char_at(s: Seq<char>, c: char, i: int, j: int)
    requires
        0 <= i <= j < s.len(),
        s[j] == c,
        forall|k: int| i <= k < j ==> s[k] != c,
    ensures
        find_char_from(s, c, i) == Some(j),
    decreases j - i,
{
    if i < j {
        lemma_first_char_at(s, c, i + 1, j);
    }
}

proof fn lemma_no_char_from(s: Seq<char>, c: char, i: int)
    requires
        0 <= i,
        forall|k: int| i <= k < s.len() ==> s[k] != c,
    ensures
        find_char_from(s, c, i) is None,
{
    lemma_find_char_from_bounds(s, c, i);
}

/// `a/b`, with no `/` in `a` or `b`, splits into `a` and `b`.
proof fn lemma_split_two(a: Seq<char>, b: Seq<char>)
    requires
        free_of(a, '/'),
        free_of(b, '/'),
    ensures
        split_spec(a + "/"@ + b, '/') == seq![a, b],
{
    reveal_strlit("/");
    let s = a + "/"@ + b;
    assert(s[a.len() as int] == '/');
    assert forall|k: int| 0 <= k < a.len() implies s[k] != '/' by {
        assert(s[k] == a[k]);
    }
    lemma_first_char_at(s, '/', 0, a.len() as int);
    assert forall|k: int| a.len() + 1 <= k < s.len() implies s[k] != '/' by {
        assert(s[k] == b[k - a.len() - 1]);
    }
    lemma_no_char_from(s, '/', (a.len() + 1) as int);
    assert(s.subrange(0, a.len() as int) =~= a);
    assert(s.subrange((a.len() + 1) as int, s.len() as int) =~= b);
    assert(split_from(s, '/', (a.len() + 1) as int) == seq![b]);
    assert(split_spec(s, '/') =~= seq![a] + seq![b]);
}

/// `a/b/c`, with no `/` in any of them, splits into `a`, `b` and `c`.
proof fn lemma_split_three(a: Seq<char>, b: Seq<char>, c: Seq<char>)
    requires
        free_of(a, '/'),
        free_of(b, '/'),
        free_of(c, '/'),
    ensures
        split_spec(a + "/"@ + b + "/"@ + c, '/') == seq![a, b, c],
{
    reveal_strlit("/");
    let s = a + "/"@ + b + "/"@ + c;
    let p = a.len() as int;
    let q = (a.len() + 1 + b.len()) as int;
    assert(s[p] == '/');
    assert(s[q] == '/');
    assert forall|k: int| 0 <= k < p implies s[k] != '/' by {
        assert(s[k] == a[k]);
    }
    lemma_first_char_at(s, '/', 0, p);
    assert forall|k: int| p + 1 <= k < q implies s[k] != '/' by {
        assert(s[k] == b[k - p - 1]);
    }
    lemma_first_char_at(s, '/', p + 1, q);
    assert forall|k: int| q + 1 <= k < s.len() implies s[k] != '/' by {
        assert(s[k] == c[k - q - 1]);
    }
    lemma_no_char_from(s, '/', q + 1);
    assert(s.subrange(0, p) =~= a);
    assert(s.subrange(p + 1, q) =~= b);
    assert(s.subrange(q + 1, s.len() as int) =~= c);
    assert(split_from(s, '/', q + 1) == seq![c]);
    assert(split_from(s, '/', p + 1) =~= seq![b] + seq![c]);
    assert(split_spec(s, '/') =~= seq![a] + (seq![b] + seq![c]));
}

/// One of the four kinds of Figma link: prototypes, designs, boards and
/// files.
pub open spec fn is_figma_link_type(t: Seq<char>) -> bool {
    ||| t == "proto"@
    ||| t == "design"@
    ||| t == "board"@
    ||| t == "file"@
}

proof fn lemma_link_type_plain(t: Seq<char>)
    requires
        is_figma_link_type(t),
    ensures
        t.len() > 0,
        free_of(t, '/'),
        free_of(t, '?'),
        free_of(t, '#'),
{
    reveal_strlit("design");
    reveal_strlit("file");
    reveal_strlit("board");
    reveal_strlit("proto");
}

/// The path of a link of one of the four kinds.
pub open spec fn link_path(t: Seq<char>, key: Seq<char>, slug: Option<Seq<char>>) -> Seq<char> {
    "/"@ + t + "/"@ + key + match slug {
        Some(g) => "/"@ + g,
        None => Seq::<char>::empty(),
    }
}

/// The path's segments: the kind, the key and the slug if any.
pub open spec fn link_parts(t: Seq<char>, key: Seq<char>, slug: Option<Seq<char>>) -> Seq<Seq<char>> {
    match slug {
        Some(g) => seq![t, key, g],
        None => seq![t, key],
    }
}

proof fn lemma_link_path(host: Seq<char>, t: Seq<char>, key: Seq<char>, slug: Option<Seq<char>>)
    requires
        is_figma_link_type(t),
        key.len() > 0,
        free_of(host, '/') && free_of(host, '?') && free_of(host, '#'),
        free_of(key, '/') && free_of(key, '?') && free_of(key, '#'),
        slug matches Some(g) ==> g.len() > 0 && free_of(g, '/') && free_of(g, '?') && free_of(g, '#'),
    ensures
        ({
            let rest = host + link_path(t, key, slug);
            &&& cut_at(rest, '#') == (rest, None::<Seq<char>>)
            &&& cut_at(rest, '?') == (rest, None::<Seq<char>>)
            &&& find_char_from(rest, '/', 0) == Some(host.len() as int)
            &&& rest.take(host.len() as int) == host
            &&& rest.skip(host.len() as int) == link_path(t, key, slug)
            &&& split_spec(trim_char_spec(link_path(t, key, slug), '/'), '/') == link_parts(t, key, slug)
        }),
{
    reveal_strlit("/");
    lemma_link_type_plain(t);
    let tail = match slug {
        Some(g) => "/"@ + g,
        None => Seq::<char>::empty(),
    };
    let path = link_path(t, key, slug);
    let rest = host + path;
    assert(rest =~= host + "/"@ + t + "/"@ + key + tail);
    assert forall|k: int| 0 <= k < rest.len() implies rest[k] != '#' && rest[k] != '?' by {
        if k < host.len() {
            assert(rest[k] == host[k]);
        } else if k == host.len() {
        } else if k < host.len() + 1 + t.len() {
            assert(rest[k] == t[k - host.len() - 1]);
        } else if k == host.len() + 1 + t.len() {
        } else if k < host.len() + 2 + t.len() + key.len() {
            assert(rest[k] == key[k - host.len() - 2 - t.len()]);
        } else {
            let g = slug->0;
            let j = k - (host.len() + 2 + t.len() + key.len());
            assert(rest[k] == tail[j]);
            if j > 0 {
                assert(tail[j] == g[j - 1]);
            }
        }
    }
    lemma_no_char_from(rest, '#', 0);
    lemma_no_char_from(rest, '?', 0);
    assert forall|k: int| 0 <= k < host.len() implies rest[k] != '/' by {
        assert(rest[k] == host[k]);
    }
    assert(rest[host.len() as int] == '/');
    lemma_first_char_at(rest, '/', 0, host.len() as int);
    assert(rest.take(host.len() as int) =~= host);
    assert(rest.skip(host.len() as int) =~= path);
    let body = t + "/"@ + key + tail;
    assert(path.drop_first() =~= body);
    assert(body[0] == t[0]);
    assert(trim_start_char_spec(path.drop_first(), '/') == body);
    assert(trim_start_char_spec(path, '/') == body);
    match slug {
        Some(g) => {
            assert(body.last() == g.last());
            assert(trim_end_char_spec(body, '/') == body);
            assert(body =~= t + "/"@ + key + "/"@ + g);
            lemma_split_three(t, key, g);
        },
        None => {
            assert(body.last() == key.last());
            assert(trim_end_char_spec(body, '/') == body);
            assert(body =~= t + "/"@ + key);
            lemma_split_two(t, key);
        },
    }
    assert(trim_char_spec(path, '/') == body);
}

/// Every link of the four kinds parses: after the scheme, a host, then
/// `/design/`, `/file/`, `/board/` or `/proto/`, a file key that is not
/// empty, and optionally `/` and a slug (none of them holding `/`, `?` or
/// `#`) give a URL whose type is that kind and whose file key is the key,
/// not a branch, with the slug percent-decoded, and a design link on the
/// same kind's path (`/proto/` links stay prototypes).
#[verifier::spinoff_prover]
pub proof fn law_link_types_parse(
    input: Seq<char>,
    scheme: Seq<char>,
    host: Seq<char>,
    t: Seq<char>,
    key: Seq<char>,
    slug: Option<Seq<char>>,
)
    requires
        is_figma_link_type(t),
        key.len() > 0,
        free_of(host, '/') && free_of(host, '?') && free_of(host, '#'),
        free_of(key, '/') && free_of(key, '?') && free_of(key, '#'),
        slug matches Some(g) ==> g.len() > 0 && free_of(g, '/') && free_of(g, '?') && free_of(g, '#'),
    ensures
        ({
            let rest = host + "/"@ + t + "/"@ + key + match slug {
                Some(g) => "/"@ + g,
                None => Seq::<char>::empty(),
            };
            parse_after_scheme(input, scheme, rest) matches Ok(m) && m.kind == "url"@ && m.url_type
                == Some(t) && m.file_key == key && !m.is_branch && m.host == Some(host)
                && m.file_slug == match slug {
                Some(g) => Some(url_decode_spec(g)),
                None => None,
            } && m.links.figma_design == "https://www.figma.com/"@ + t + "/"@ + key + match slug {
                Some(g) => "/"@ + url_decode_spec(g),
                None => Seq::<char>::empty(),
            }
        }),
{
    lemma_link_path(host, t, key, slug);
    lemma_link_type_plain(t);
    let rest = host + "/"@ + t + "/"@ + key + match slug {
        Some(g) => "/"@ + g,
        None => Seq::<char>::empty(),
    };
    assert(rest =~= host + link_path(t, key, slug));
    let parts = link_parts(t, key, slug);
    assert(parts[0] == t && parts[1] == key);
    assert(is_url_type(t));
    assert(figma_web_path_prefix_spec(t) == t);
    if let Some(g) = slug {
        assert(parts.skip(2) =~= seq![g]);
        assert(parts.skip(2).map_values(|x: Seq<char>| url_decode_spec(x)) =~= seq![url_decode_spec(g)]);
        assert(("https://www.figma.com/"@ + t + "/"@ + key) + "/"@ + url_decode_spec(g) =~= "https://www.figma.com/"@ + t + "/"@ + key + ("/"@ + url_decode_spec(g)));
    } else {
        assert(parts.len() == 2);
        assert("https://www.figma.com/"@ + t + "/"@ + key + Seq::<char>::empty() =~= "https://www.figma.com/"@ + t + "/"@ + key);
    }
}

proof fn lemma_first_match_at(s: Seq<char>, p: Seq<char>, i: int, j: int)
    requires
        0 <= i <= j,
        matches_at(s, p, j),
        forall|k: int| i <= k < j ==> !matches_at(s, p, k),
    ensures
        find_from(s, p, i) == Some(j),
    decreases j - i,
{
    if i < j {
        lemma_first_match_at(s, p, i + 1, j);
    }
}

/// Every Figma URL of the four kinds parses: `https://`, a host that
/// names `figma.com`, then `/design/`, `/file/`, `/board/` or `/proto/`, a
/// file key that is not empty, and optionally `/` and a slug (none of them
/// holding `/`, `?` or `#`, the URL not ending in whitespace) give a URL
/// whose type is that kind and whose file key is the key, not a branch.
pub proof fn law_figma_urls_parse(host: Seq<char>, t: Seq<char>, key: Seq<char>, slug: Option<Seq<char>>)
    requires
        contains_spec(host, "figma.com"@),
        is_figma_link_type(t),
        key.len() > 0,
        free_of(host, '/') && free_of(host, '?') && free_of(host, '#'),
        free_of(key, '/') && free_of(key, '?') && free_of(key, '#'),
        slug matches Some(g) ==> g.len() > 0 && free_of(g, '/') && free_of(g, '?') && free_of(g, '#'),
        !is_ws(link_path(t, key, slug).last()),
    ensures
        parse_detailed_spec("https://"@ + host + link_path(t, key, slug)) matches Ok(m) && m.kind
            == "url"@ && m.url_type == Some(t) && m.file_key == key && !m.is_branch,
{
    reveal_strlit("https://");
    reveal_strlit("://");
    let path = link_path(t, key, slug);
    let input = "https://"@ + host + path;
    let rest = host + path;
    lemma_link_path(host, t, key, slug);
    // No whitespace to trim.
    assert(!is_ws(input[0]));
    assert(trim_start_spec(input) == input);
    assert(input.last() == path.last());
    assert(trim_end_spec(input) == input);
    assert(trim_spec(input) == input);
    // The host's `figma.com` is in the URL.
    assert(input.subrange(8, 8 + host.len() as int) =~= host);
    lemma_contains_subrange(input, 8, 8 + host.len() as int, "figma.com"@);
    // The scheme ends at the first `://`.
    assert(matches_at(input, "://"@, 5)) by {
        assert(input.subrange(5, 8) =~= "://"@);
    }
    assert forall|k: int| 0 <= k < 5 implies !matches_at(input, "://"@, k) by {
        if matches_at(input, "://"@, k) {
            assert(input.subrange(k, k + 3)[0] == input[k]);
        }
    }
    lemma_first_match_at(input, "://"@, 0, 5);
    assert(input.skip(8) =~= rest);
    law_link_types_parse(input, input.take(5), host, t, key, slug);
    assert(rest =~= host + "/"@ + t + "/"@ + key + match slug {
        Some(g) => "/"@ + g,
        None => Seq::<char>::empty(),
    });
}

/// `a/b/c/d`, with no `/` in any of them, splits into the four.
proof fn lemma_split_four(a: Seq<char>, b: Seq<char>, c: Seq<char>, d: Seq<char>)
    requires
        free_of(a, '/'),
        free_of(b, '/'),
        free_of(c, '/'),
        free_of(d, '/'),
    ensures
        split_spec(a + "/"@ + b + "/"@ + c + "/"@ + d, '/') == seq![a, b, c, d],
{
    reveal_strlit("/");
    let s = a + "/"@ + b + "/"@ + c + "/"@ + d;
    let p = a.len() as int;
    let q = (a.len() + 1 + b.len()) as int;
    let r = (a.len() + 2 + b.len() + c.len()) as int;
    assert(s[p] == '/');
    assert(s[q] == '/');
    assert(s[r] == '/');
    assert forall|k: int| 0 <= k < p implies s[k] != '/' by {
        assert(s[k] == a[k]);
    }
    lemma_first_char_at(s, '/', 0, p);
    assert forall|k: int| p + 1 <= k < q implies s[k] != '/' by {
        assert(s[k] == b[k - p - 1]);
    }
    lemma_first_char_at(s, '/', p + 1, q);
    assert forall|k: int| q + 1 <= k < r implies s[k] != '/' by {
        assert(s[k] == c[k - q - 1]);
    }
    lemma_first_char_at(s, '/', q + 1, r);
    assert forall|k: int| r + 1 <= k < s.len() implies s[k] != '/' by {
        assert(s[k] == d[k - r - 1]);
    }
    lemma_no_char_from(s, '/', r + 1);
    assert(s.subrange(0, p) =~= a);
    assert(s.subrange(p + 1, q) =~= b);
    assert(s.subrange(q + 1, r) =~= c);
    assert(s.subrange(r + 1, s.len() as int) =~= d);
    assert(split_from(s, '/', r + 1) == seq![d]);
    assert(split_from(s, '/', q + 1) =~= seq![c] + seq![d]);
    assert(split_from(s, '/', p + 1) =~= seq![b] + (seq![c] + seq![d]));
    assert(split_spec(s, '/') =~= seq![a] + (seq![b] + (seq![c] + seq![d])));
}

proof fn lemma_branch_path(host: Seq<char>, t: Seq<char>, key: Seq<char>, bkey: Seq<char>)
    requires
        is_figma_link_type(t),
        key.len() > 0,
        bkey.len() > 0,
        free_of(host, '/') && free_of(host, '?') && free_of(host, '#'),
        free_of(key, '/') && free_of(key, '?') && free_of(key, '#'),
        free_of(bkey, '/') && free_of(bkey, '?') && free_of(bkey, '#'),
    ensures
        ({
            let path = "/"@ + t + "/"@ + key + "/branch/"@ + bkey;
            let rest = host + path;
            &&& cut_at(rest, '#') == (rest, None::<Seq<char>>)
            &&& cut_at(rest, '?') == (rest, None::<Seq<char>>)
            &&& find_char_from(rest, '/', 0) == Some(host.len() as int)
            &&& rest.take(host.len() as int) == host
            &&& rest.skip(host.len() as int) == path
            &&& split_spec(trim_char_spec(path, '/'), '/') == seq![t, key, "branch"@, bkey]
        }),
{
    reveal_strlit("/");
    reveal_strlit("/branch/");
    reveal_strlit("branch");
    lemma_link_type_plain(t);
    let br = "branch"@;
    assert(free_of(br, '/') && free_of(br, '?') && free_of(br, '#'));
    let body = t + "/"@ + key + "/"@ + br + "/"@ + bkey;
    let path = "/"@ + t + "/"@ + key + "/branch/"@ + bkey;
    assert(path =~= "/"@ + body);
    let rest = host + path;
    assert forall|k: int| 0 <= k < rest.len() implies rest[k] != '#' && rest[k] != '?' by {
        let o1 = host.len() as int;
        let o2 = o1 + 1 + t.len();
        let o3 = o2 + 1 + key.len();
        let o4 = o3 + 1 + br.len();
        if k < o1 {
            assert(rest[k] == host[k]);
        } else if k == o1 || k == o2 || k == o3 || k == o4 {
        } else if k < o2 {
            assert(rest[k] == t[k - o1 - 1]);
        } else if k < o3 {
            assert(rest[k] == key[k - o2 - 1]);
        } else if k < o4 {
            assert(rest[k] == br[k - o3 - 1]);
        } else {
            assert(rest[k] == bkey[k - o4 - 1]);
        }
    }
    lemma_no_char_from(rest, '#', 0);
    lemma_no_char_from(rest, '?', 0);
    assert forall|k: int| 0 <= k < host.len() implies rest[k] != '/' by {
        assert(rest[k] == host[k]);
    }
    assert(rest[host.len() as int] == '/');
    lemma_first_char_at(rest, '/', 0, host.len() as int);
    assert(rest.take(host.len() as int) =~= host);
    assert(rest.skip(host.len() as int) =~= path);
    assert(path.drop_first() =~= body);
    assert(body[0] == t[0]);
    assert(trim_start_char_spec(path.drop_first(), '/') == body);
    assert(trim_start_char_spec(path, '/') == body);
    assert(body.last() == bkey.last());
    assert(trim_end_char_spec(body, '/') == body);
    lemma_split_four(t, key, br, bkey);
    assert(trim_char_spec(path, '/') == body);
}

/// Branch links parse as branches: a link of one of the four kinds whose
/// path goes on with `/branch/` and a branch key gives a branch URL whose
/// file key is the branch key and whose parent file key is the first key.
pub proof fn law_branch_links_parse(
    input: Seq<char>,
    scheme: Seq<char>,
    host: Seq<char>,
    t: Seq<char>,
    key: Seq<char>,
    bkey: Seq<char>,
)
    requires
        is_figma_link_type(t),
        key.len() > 0,
        bkey.len() > 0,
        free_of(host, '/') && free_of(host, '?') && free_of(host, '#'),
        free_of(key, '/') && free_of(key, '?') && free_of(key, '#'),
        free_of(bkey, '/') && free_of(bkey, '?') && free_of(bkey, '#'),
    ensures
        parse_after_scheme(input, scheme, host + "/"@ + t + "/"@ + key + "/branch/"@ + bkey) matches Ok(
            m,
        ) && m.url_type == Some(t) && m.is_branch && m.file_key == bkey && m.parent_file_key
            == Some(key),
{
    lemma_branch_path(host, t, key, bkey);
    lemma_link_type_plain(t);
    let path = "/"@ + t + "/"@ + key + "/branch/"@ + bkey;
    assert(host + "/"@ + t + "/"@ + key + "/branch/"@ + bkey =~= host + path);
    let parts = seq![t, key, "branch"@, bkey];
    assert(parts[0] == t && parts[1] == key && parts[2] == "branch"@ && parts[3] == bkey);
    assert(is_url_type(t));
}

proof fn lemma_decode_plain_from(s: Seq<char>, i: int)
    requires
        vstd::utf8::is_ascii_chars(s),
        free_of(s, '%'),
        0 <= i <= s.len(),
    ensures
        url_decode_from(encode_utf8(s), i) == s.skip(i),
    decreases s.len() - i,
{
    vstd::utf8::is_ascii_chars_encode_utf8(s);
    let b = encode_utf8(s);
    if i < s.len() {
        lemma_decode_plain_from(s, i + 1);
        let c = s[i];
        assert('\0' <= c <= '\u{7f}');
        assert(b[i] == c as u8);
        assert(c != '%');
        assert((b[i] as char) == c);
        assert(s.skip(i) =~= seq![c] + s.skip(i + 1));
    } else {
        assert(s.skip(i) =~= Seq::<char>::empty());
    }
}

/// Percent-decoding leaves ASCII text without `%` as it is.
proof fn lemma_decode_plain(s: Seq<char>)
    requires
        vstd::utf8::is_ascii_chars(s),
        free_of(s, '%'),
    ensures
        url_decode_spec(s) == s,
{
    lemma_decode_plain_from(s, 0);
    assert(s.skip(0) =~= s);
}

/// A URL's node comes from its `node-id` parameter: a link of one of the
/// four kinds with the query `node-id=v` (`v` plain ASCII, not empty, with
/// no `%`, `&` or `#`) has the node `v`, whose API form is `v` with every
/// `-` made `:`.
pub proof fn law_node_id_parses(
    input: Seq<char>,
    scheme: Seq<char>,
    host: Seq<char>,
    t: Seq<char>,
    key: Seq<char>,
    v: Seq<char>,
)
    requires
        is_figma_link_type(t),
        key.len() > 0,
        free_of(host, '/') && free_of(host, '?') && free_of(host, '#'),
        free_of(key, '/') && free_of(key, '?') && free_of(key, '#'),
        v.len() > 0,
        vstd::utf8::is_ascii_chars(v),
        free_of(v, '%') && free_of(v, '&') && free_of(v, '#'),
    ensures
        ({
            let r = parse_after_scheme(input, scheme, host + "/"@ + t + "/"@ + key + "?node-id="@ + v);
            &&& r is Ok
            &&& r->Ok_0.url_type == Some(t)
            &&& r->Ok_0.file_key == key
            &&& r->Ok_0.node is Some
            &&& r->Ok_0.node->0.raw == v
            &&& r->Ok_0.node->0.api_format.len() == v.len()
            &&& forall|i: int|
                0 <= i < v.len() ==> #[trigger] r->Ok_0.node->0.api_format[i] == if v[i] == '-' {
                    ':'
                } else {
                    v[i]
                }
        }),
{
    reveal_strlit("?node-id=");
    reveal_strlit("node-id");
    reveal_strlit("node-id=");
    reveal_strlit("?");
    reveal_strlit("=");
    lemma_link_path(host, t, key, None);
    lemma_link_type_plain(t);
    let path = link_path(t, key, None);
    let hp = host + path;
    let q = "node-id="@ + v;
    let rest = hp + "?"@ + q;
    assert(host + "/"@ + t + "/"@ + key + "?node-id="@ + v =~= rest);
    // No `#` anywhere; the first `?` ends the path.
    assert forall|k: int| 0 <= k < rest.len() implies rest[k] != '#' by {
        if k < hp.len() {
            assert(rest[k] == hp[k]);
            lemma_find_char_from_bounds(hp, '#', 0);
        } else if k > hp.len() + 8 {
            assert(rest[k] == v[k - hp.len() - 9]);
        }
    }
    lemma_no_char_from(rest, '#', 0);
    assert(cut_at(rest, '#') == (rest, None::<Seq<char>>));
    assert forall|k: int| 0 <= k < hp.len() implies rest[k] != '?' by {
        assert(rest[k] == hp[k]);
        lemma_find_char_from_bounds(hp, '?', 0);
    }
    assert(rest[hp.len() as int] == '?');
    lemma_first_char_at(rest, '?', 0, hp.len() as int);
    assert(rest.take(hp.len() as int) =~= hp);
    assert(rest.skip((hp.len() + 1) as int) =~= q);
    // The query is the one pair `node-id` = `v`.
    assert forall|k: int| 0 <= k < q.len() implies q[k] != '&' by {
        if k >= 8 {
            assert(q[k] == v[k - 8]);
        }
    }
    lemma_no_char_from(q, '&', 0);
    assert(split_spec(q, '&') =~= seq![q.subrange(0, q.len() as int)]);
    assert(q.subrange(0, q.len() as int) =~= q);
    assert forall|k: int| 0 <= k < 7 implies q[k] != '=' by {}
    assert(q[7] == '=');
    lemma_first_char_at(q, '=', 0, 7);
    assert(q.take(7) =~= "node-id"@);
    assert(q.skip(8) =~= v);
    lemma_decode_plain(v);
    assert(query_entry(q) == seq![("node-id"@, v)]);
    let pieces = split_spec(q, '&');
    assert(pieces.len() == 1 && pieces.last() == q);
    assert(pieces.drop_last() =~= Seq::<Seq<char>>::empty());
    assert(query_pairs_of(pieces.drop_last()) == Seq::<(Seq<char>, Seq<char>)>::empty());
    assert(query_pairs_of(pieces) =~= seq![("node-id"@, v)]);
    let pairs = query_pairs_spec(q);
    assert(pairs == seq![("node-id"@, v)]);
    assert(pairs.drop_last() =~= Seq::<(Seq<char>, Seq<char>)>::empty());
    assert(merge_pairs(pairs.drop_last()) =~= Seq::<(Seq<char>, Seq<char>)>::empty());
    assert(name_index(Seq::<(Seq<char>, Seq<char>)>::empty(), "node-id"@) is None);
    let merged = merge_pairs(pairs);
    assert(merged =~= seq![("node-id"@, v)]);
    assert(query_get(merged, "node-id"@) == Some(v));
    let parts = link_parts(t, key, None);
    assert(parts[0] == t && parts[1] == key);
    assert(is_url_type(t));
}

/// Percent-encodes a string: unreserved bytes (`A-Z a-z 0-9 - _ . ~`) stay,
/// every other byte becomes `%XY` with upper-case hexadecimal digits.
pub fn url_encode(s: &str) -> (r: String)
    ensures
        r@ == url_encode_spec(s@),
{
    let b = s.as_bytes();
    let mut r = String::new();
    let mut i: usize = 0;
    while i < b.len()
        invariant
            i <= b.len(),
            b@ == encode_utf8(s@),
            r@ == url_encode_bytes(b@.take(i as int)),
        decreases b.len() - i,
    {
        let c = b[i];
        if (65 <= c && c <= 90) || (97 <= c && c <= 122) || (48 <= c && c <= 57) || c == 45 || c
            == 95 || c == 46 || c == 126 {
            crate::text::push_char(&mut r, c as char);
        } else {
            crate::text::push_char(&mut r, '%');
            crate::text::push_char(&mut r, hex_char(c / 16));
            crate::text::push_char(&mut r, hex_char(c % 16));
        }
        i = i + 1;
        assert(b@.take(i as int).drop_last() =~= b@.take(i - 1));
        assert(encode_byte(c) =~= if is_unreserved(c) {
            seq![c as char]
        } else {
            seq!['%', hex_digit_char((c / 16) as nat), hex_digit_char((c % 16) as nat)]
        });
    }
    assert(b@.take(b.len() as int) =~= b@);
    r
}


// ───────────────────────── parsed URLs ─────────────────────────

/// The node a URL points at: as written in the URL, in the API's `a:b`
/// form, and percent-encoded for a query string.
#[derive(Debug)]
pub struct NodeFromUrl {
    pub raw: String,
    pub api_format: String,
    pub url_encoded: String,
}

/// Links derived from a parsed URL.
#[derive(Debug)]
pub struct ParsedLinks {
    pub web: Option<String>,
    pub figma_design: String,
    pub rest_file: String,
    pub rest_nodes: Option<String>,
}

/// Everything a Figma URL (or a bare file key) says.
///
/// `query` holds the query parameters as the map the query string stands
/// for: one pair per name, in the order the names first come, each with the
/// last value written for it (see `merge_pairs` and `lemma_merge_pairs`).
#[derive(Debug)]
pub struct ParsedFigmaUrl {
    pub input: String,
    pub kind: String,
    pub scheme: Option<String>,
    pub host: Option<String>,
    pub path: Option<String>,
    pub url_type: Option<String>,
    pub is_branch: bool,
    pub parent_file_key: Option<String>,
    pub file_key: String,
    pub file_slug: Option<String>,
    pub query: Vec<(String, String)>,
    pub sharing_view_token: Option<String>,
    pub node: Option<NodeFromUrl>,
    pub fragment: Option<String>,
    pub links: ParsedLinks,
}

/// The short form of a parsed URL that the commands use.
#[derive(Debug)]
pub struct FigmaUrl {
    pub file_key: String,
    pub node_id: String,
    pub url_type: String,
}

/// The view of an optional string.
pub open spec fn opt_view(o: Option<String>) -> Option<Seq<char>> {
    match o {
        Some(s) => Some(s@),
        None => None,
    }
}

/// The model of `NodeFromUrl`.
pub struct NodeModel {
    pub raw: Seq<char>,
    pub api_format: Seq<char>,
    pub url_encoded: Seq<char>,
}

/// The model of `ParsedLinks`.
pub struct LinksModel {
    pub web: Option<Seq<char>>,
    pub figma_design: Seq<char>,
    pub rest_file: Seq<char>,
    pub rest_nodes: Option<Seq<char>>,
}

/// The model of `ParsedFigmaUrl`.
pub struct UrlModel {
    pub input: Seq<char>,
    pub kind: Seq<char>,
    pub scheme: Option<Seq<char>>,
    pub host: Option<Seq<char>>,
    pub path: Option<Seq<char>>,
    pub url_type: Option<Seq<char>>,
    pub is_branch: bool,
    pub parent_file_key: Option<Seq<char>>,
    pub file_key: Seq<char>,
    pub file_slug: Option<Seq<char>>,
    pub query: Seq<(Seq<char>, Seq<char>)>,
    pub sharing_view_token: Option<Seq<char>>,
    pub node: Option<NodeModel>,
    pub fragment: Option<Seq<char>>,
    pub links: LinksModel,
}

impl View for NodeFromUrl {
    type V = NodeModel;

    open spec fn view(&self) -> NodeModel {
        NodeModel { raw: self.raw@, api_format: self.api_format@, url_encoded: self.url_encoded@ }
    }
}

impl View for ParsedLinks {
    type V = LinksModel;

    open spec fn view(&self) -> LinksModel {
        LinksModel {
            web: opt_view(self.web),
            figma_design: self.figma_design@,
            rest_file: self.rest_file@,
            rest_nodes: opt_view(self.rest_nodes),
        }
    }
}

/// The views of the query pairs.
pub open spec fn pairs_view(q: Seq<(String, String)>) -> Seq<(Seq<char>, Seq<char>)> {
    q.map_values(|p: (String, String)| (p.0@, p.1@))
}

impl View for ParsedFigmaUrl {
    type V = UrlModel;

    open spec fn view(&self) -> UrlModel {
        UrlModel {
            input: self.input@,
            kind: self.kind@,
            scheme: opt_view(self.scheme),
            host: opt_view(self.host),
            path: opt_view(self.path),
            url_type: opt_view(self.url_type),
            is_branch: self.is_branch,
            parent_file_key: opt_view(self.parent_file_key),
            file_key: self.file_key@,
            file_slug: opt_view(self.file_slug),
            query: pairs_view(self.query@),
            sharing_view_token: opt_view(self.sharing_view_token),
            node: match self.node {
                Some(n) => Some(n@),
                None => None,
            },
            fragment: opt_view(self.fragment),
            links: self.links@,
        }
    }
}

// ───────────────────────── the specification ─────────────────────────

/// The base of Figma's REST API.
pub open spec fn rest_api_v1() -> Seq<char> {
    "https://api.figma.com/v1"@
}

/// The path prefix of a Figma web link for a URL type.
pub open spec fn figma_web_path_prefix_spec(url_type: Seq<char>) -> Seq<char> {
    if url_type == "file"@ || url_type == "board"@ || url_type == "proto"@ {
        url_type
    } else {
        "design"@
    }
}

/// A node id as written in a URL (`1-23`) in the API's form (`1:23`).
pub open spec fn node_id_url_to_api_spec(s: Seq<char>) -> Seq<char> {
    replace_char_spec(s, '-', ':')
}

/// The node named by a `node-id` query parameter.
pub open spec fn node_model(raw: Seq<char>) -> NodeModel {
    let api = node_id_url_to_api_spec(raw);
    NodeModel { raw, api_format: api, url_encoded: url_encode_spec(api) }
}

/// The links for a file (and optionally a node in it).
pub open spec fn build_links_spec(
    url_type: Seq<char>,
    file_key: Seq<char>,
    slug: Option<Seq<char>>,
    node: Option<NodeModel>,
    web: Seq<char>,
) -> LinksModel {
    let prefix = figma_web_path_prefix_spec(url_type);
    let design = match slug {
        Some(s) => "https://www.figma.com/"@ + prefix + "/"@ + file_key + "/"@ + s,
        None => "https://www.figma.com/"@ + prefix + "/"@ + file_key,
    };
    LinksModel {
        web: if web.len() == 0 {
            None
        } else {
            Some(web)
        },
        figma_design: design,
        rest_file: rest_api_v1() + "/files/"@ + file_key,
        rest_nodes: match node {
            Some(n) => Some(rest_api_v1() + "/files/"@ + file_key + "/nodes?ids="@ + n.url_encoded),
            None => None,
        },
    }
}

/// A bare file key, taken as it is.
pub open spec fn plain_file_key_spec(key: Seq<char>) -> UrlModel {
    UrlModel {
        input: key,
        kind: "file_key"@,
        scheme: None,
        host: None,
        path: None,
        url_type: None,
        is_branch: false,
        parent_file_key: None,
        file_key: key,
        file_slug: None,
        query: seq![],
        sharing_view_token: None,
        node: None,
        fragment: None,
        links: build_links_spec("design"@, key, None, None, seq![]),
    }
}

/// Path segments, each percent-decoded, joined with `/`.
pub open spec fn path_join_unescape_spec(segments: Seq<Seq<char>>) -> Seq<char> {
    join_spec(segments.map_values(|s: Seq<char>| url_decode_spec(s)), "/"@)
}

/// The query pair that one `&`-separated piece contributes: `name=value`
/// with a value that is not empty once decoded.
pub open spec fn query_entry(piece: Seq<char>) -> Seq<(Seq<char>, Seq<char>)> {
    match split_once_spec(piece, '=') {
        Some((k, v)) => if url_decode_spec(v).len() > 0 {
            seq![(k, url_decode_spec(v))]
        } else {
            seq![]
        },
        None => seq![],
    }
}

/// The query pairs of the pieces, in order.
pub open spec fn query_pairs_of(pieces: Seq<Seq<char>>) -> Seq<(Seq<char>, Seq<char>)>
    decreases pieces.len(),
{
    if pieces.len() == 0 {
        seq![]
    } else {
        query_pairs_of(pieces.drop_last()) + query_entry(pieces.last())
    }
}

/// The query pairs of a query string.
pub open spec fn query_pairs_spec(qs: Seq<char>) -> Seq<(Seq<char>, Seq<char>)> {
    query_pairs_of(split_spec(qs, '&'))
}

/// The value of a query parameter: the last pair with that name.
pub open spec fn query_get(pairs: Seq<(Seq<char>, Seq<char>)>, name: Seq<char>) -> Option<
    Seq<char>,
>
    decreases pairs.len(),
{
    if pairs.len() == 0 {
        None
    } else if pairs.last().0 == name {
        Some(pairs.last().1)
    } else {
        query_get(pairs.drop_last(), name)
    }
}

/// The map that a list of name/value pairs stands for: each name to its
/// last value (as a `HashMap` filled in order keeps it).
pub open spec fn pairs_map(pairs: Seq<(Seq<char>, Seq<char>)>) -> Map<Seq<char>, Seq<char>>
    decreases pairs.len(),
{
    if pairs.len() == 0 {
        Map::empty()
    } else {
        pairs_map(pairs.drop_last()).insert(pairs.last().0, pairs.last().1)
    }
}

/// Looking a name up in the pairs is looking it up in the map they stand
/// for: the query parameters, the attachments and the cached images are
/// maps with the later entry for a name winning.
pub proof fn lemma_query_get_is_map_lookup(pairs: Seq<(Seq<char>, Seq<char>)>, name: Seq<char>)
    ensures
        query_get(pairs, name) == (if pairs_map(pairs).contains_key(name) {
            Some(pairs_map(pairs)[name])
        } else {
            None
        }),
        pairs_map(pairs).dom().finite(),
    decreases pairs.len(),
{
    if pairs.len() > 0 {
        lemma_query_get_is_map_lookup(pairs.drop_last(), name);
    }
}

/// The last position at which `name` stands in the pairs.
pub open spec fn name_index(pairs: Seq<(Seq<char>, Seq<char>)>, name: Seq<char>) -> Option<int>
    decreases pairs.len(),
{
    if pairs.len() == 0 {
        None
    } else if pairs.last().0 == name {
        Some(pairs.len() - 1)
    } else {
        name_index(pairs.drop_last(), name)
    }
}

/// The pairs with `name` set to `value`: in place where the name is there
/// already, at the end where it is not (as a map insert keeps one value per
/// name).
pub open spec fn put_pair(pairs: Seq<(Seq<char>, Seq<char>)>, name: Seq<char>, value: Seq<char>) -> Seq<
    (Seq<char>, Seq<char>),
> {
    match name_index(pairs, name) {
        Some(j) => pairs.update(j, (name, value)),
        None => pairs.push((name, value)),
    }
}

/// The pairs put one after the other: one pair per name, in the order the
/// names first come, each with its last value.
pub open spec fn merge_pairs(pairs: Seq<(Seq<char>, Seq<char>)>) -> Seq<(Seq<char>, Seq<char>)>
    decreases pairs.len(),
{
    if pairs.len() == 0 {
        seq![]
    } else {
        put_pair(merge_pairs(pairs.drop_last()), pairs.last().0, pairs.last().1)
    }
}

/// No name stands twice in the pairs.
pub open spec fn names_distinct(pairs: Seq<(Seq<char>, Seq<char>)>) -> bool {
    forall|i: int, j: int| 0 <= i < j < pairs.len() ==> #[trigger] pairs[i].0 != #[trigger] pairs[j].0
}

proof fn lemma_name_index(pairs: Seq<(Seq<char>, Seq<char>)>, name: Seq<char>)
    ensures
        match name_index(pairs, name) {
            Some(j) => 0 <= j < pairs.len() && pairs[j].0 == name && query_get(pairs, name) == Some(
                pairs[j].1,
            ) && forall|i: int| j < i < pairs.len() ==> #[trigger] pairs[i].0 != name,
            None => query_get(pairs, name) is None && forall|i: int|
                0 <= i < pairs.len() ==> #[trigger] pairs[i].0 != name,
        },
    decreases pairs.len(),
{
    if pairs.len() > 0 {
        let d = pairs.drop_last();
        lemma_name_index(d, name);
        if pairs.last().0 != name {
            match name_index(d, name) {
                Some(j) => {
                    assert(pairs[j] == d[j]);
                    assert forall|i: int| j < i < pairs.len() implies #[trigger] pairs[i].0 != name by {
                        if i < d.len() {
                            assert(d[i] == pairs[i]);
                        }
                    }
                },
                None => {
                    assert forall|i: int| 0 <= i < pairs.len() implies #[trigger] pairs[i].0 != name by {
                        if i < d.len() {
                            assert(d[i] == pairs[i]);
                        }
                    }
                },
            }
        }
    }
}

proof fn lemma_put_pair(pairs: Seq<(Seq<char>, Seq<char>)>, name: Seq<char>, value: Seq<char>, other: Seq<char>)
    requires
        names_distinct(pairs),
    ensures
        names_distinct(put_pair(pairs, name, value)),
        query_get(put_pair(pairs, name, value), name) == Some(value),
        other != name ==> query_get(put_pair(pairs, name, value), other) == query_get(pairs, other),
{
    lemma_name_index(pairs, name);
    lemma_name_index(pairs, other);
    let q = put_pair(pairs, name, value);
    lemma_name_index(q, name);
    lemma_name_index(q, other);
    match name_index(pairs, name) {
        Some(j) => {
            assert(q[j] == (name, value));
            match name_index(q, name) {
                Some(j2) => {
                    if j2 < j {
                        assert(q[j].0 != name);
                    } else if j2 > j {
                        assert(q[j2] == pairs[j2]);
                    }
                },
                None => {
                    assert(q[j].0 != name);
                },
            }
            assert forall|a: int, b: int| 0 <= a < b < q.len() implies #[trigger] q[a].0 != #[trigger] q[b].0 by {
                if a != j && b != j {
                    assert(pairs[a].0 != pairs[b].0);
                } else if a == j {
                    assert(pairs[j].0 != pairs[b].0);
                } else {
                    assert(pairs[a].0 != pairs[j].0);
                }
            }
        },
        None => {
            assert(q.last() == (name, value));
            assert(q.drop_last() =~= pairs);
            assert forall|a: int, b: int| 0 <= a < b < q.len() implies #[trigger] q[a].0 != #[trigger] q[b].0 by {
                if b < pairs.len() {
                    assert(pairs[a].0 != pairs[b].0);
                } else {
                    assert(q[a] == pairs[a]);
                }
            }
        },
    }
    if other != name {
        match name_index(pairs, other) {
            Some(k) => {
                assert(q[k] == pairs[k]);
                assert(q[k].0 == other);
                match name_index(q, other) {
                    Some(k2) => {
                        if k2 != k {
                            if k2 < k {
                                assert(q[k2].0 != q[k].0);
                            } else {
                                assert(q[k2].0 != q[k].0);
                            }
                        }
                    },
                    None => {
                        assert(q[k].0 != other);
                    },
                }
            },
            None => {
                match name_index(q, other) {
                    Some(k2) => {
                        assert(q[k2].0 == other);
                        if k2 < pairs.len() {
                            assert(pairs[k2].0 == other);
                        }
                    },
                    None => {},
                }
            },
        }
    }
}

/// Putting the pairs one after the other keeps one pair per name and the
/// value each name has in the pairs (the later one), so it stands for the
/// same map: this is what the query of a parsed URL holds.
pub proof fn lemma_merge_pairs(pairs: Seq<(Seq<char>, Seq<char>)>, name: Seq<char>)
    ensures
        names_distinct(merge_pairs(pairs)),
        query_get(merge_pairs(pairs), name) == query_get(pairs, name),
        pairs_map(merge_pairs(pairs)) == pairs_map(pairs),
    decreases pairs.len(),
{
    if pairs.len() > 0 {
        let m = merge_pairs(pairs.drop_last());
        lemma_merge_pairs(pairs.drop_last(), name);
        lemma_put_pair(m, pairs.last().0, pairs.last().1, name);
        assert forall|k: Seq<char>| query_get(merge_pairs(pairs), k) == query_get(pairs, k) by {
            lemma_merge_pairs(pairs.drop_last(), k);
            lemma_put_pair(m, pairs.last().0, pairs.last().1, k);
        }
        let a = pairs_map(merge_pairs(pairs));
        let b = pairs_map(pairs);
        assert forall|k: Seq<char>| #[trigger] a.dom().contains(k) <==> b.dom().contains(k) by {
            lemma_merge_pairs(pairs.drop_last(), k);
            lemma_put_pair(m, pairs.last().0, pairs.last().1, k);
            lemma_query_get_is_map_lookup(merge_pairs(pairs), k);
            lemma_query_get_is_map_lookup(pairs, k);
        }
        assert forall|k: Seq<char>| #[trigger] b.dom().contains(k) implies a[k] == b[k] by {
            lemma_merge_pairs(pairs.drop_last(), k);
            lemma_put_pair(m, pairs.last().0, pairs.last().1, k);
            lemma_query_get_is_map_lookup(merge_pairs(pairs), k);
            lemma_query_get_is_map_lookup(pairs, k);
        }
        assert(a =~= b);
    } else {
        assert(pairs_map(merge_pairs(pairs)) =~= pairs_map(pairs));
    }
}

/// The URL types that Figma links use.
pub open spec fn is_url_type(t: Seq<char>) -> bool {
    t == "design"@ || t == "file"@ || t == "board"@ || t == "proto"@
}

/// What std's `Debug` formatting of a string slice gives (quoted, with
/// escapes).
pub uninterp spec fn debug_quoted(s: Seq<char>) -> Seq<char>;

/// `s` split at the first `c`: before it, and after it if it occurs.
pub open spec fn cut_at(s: Seq<char>, c: char) -> (Seq<char>, Option<Seq<char>>) {
    match find_char_from(s, c, 0) {
        Some(i) => (s.take(i), Some(s.skip(i + 1))),
        None => (s, None),
    }
}

/// The parse of the URL's path, query and fragment, once the scheme is known.
pub open spec fn parse_after_scheme(
    input: Seq<char>,
    scheme: Seq<char>,
    rest: Seq<char>,
) -> Result<UrlModel, Seq<char>> {
    let (host_and_path, fragment) = cut_at(rest, '#');
    let (hp, query_string) = cut_at(host_and_path, '?');
    match find_char_from(hp, '/', 0) {
        None => Err("invalid URL: missing path"@),
        Some(j) => {
            let host = hp.take(j);
            let path = hp.skip(j);
            let parts = split_spec(trim_char_spec(path, '/'), '/');
            if parts.len() < 2 {
                Err(
                    "cannot parse Figma URL: expected /design/:fileKey/... or /file/:fileKey/..."@,
                )
            } else if !is_url_type(parts[0]) {
                Err("cannot parse Figma URL: unsupported path type "@ + debug_quoted(parts[0]))
            } else {
                let query = match query_string {
                    Some(q) => merge_pairs(query_pairs_spec(q)),
                    None => seq![],
                };
                let branch = parts.len() >= 4 && parts[2] == "branch"@;
                let parent = if branch {
                    Some(parts[1])
                } else {
                    None
                };
                let file_key = if branch {
                    parts[3]
                } else {
                    parts[1]
                };
                let slug_from: int = if branch {
                    4
                } else {
                    2
                };
                let slug = if parts.len() > slug_from {
                    Some(path_join_unescape_spec(parts.skip(slug_from)))
                } else {
                    None
                };
                if file_key.len() == 0 {
                    Err("cannot extract file key from URL"@)
                } else {
                    let node = match query_get(query, "node-id"@) {
                        Some(np) => Some(node_model(np)),
                        None => None,
                    };
                    let web_host = if host == "figma.com"@ {
                        "www.figma.com"@
                    } else {
                        host
                    };
                    let web = "https://"@ + web_host + path + match query_string {
                        Some(q) => "?"@ + q,
                        None => seq![],
                    } + match fragment {
                        Some(f) => "#"@ + f,
                        None => seq![],
                    };
                    Ok(
                        UrlModel {
                            input,
                            kind: "url"@,
                            scheme: Some(scheme),
                            host: Some(host),
                            path: Some(path),
                            url_type: Some(parts[0]),
                            is_branch: branch,
                            parent_file_key: parent,
                            file_key,
                            file_slug: slug,
                            query,
                            sharing_view_token: query_get(query, "t"@),
                            node,
                            fragment,
                            links: build_links_spec(parts[0], file_key, slug, node, web),
                        },
                    )
                }
            }
        },
    }
}

/// What a Figma URL or file key says, or the message of why it cannot be
/// read: surrounding whitespace is ignored; input without `figma.com` is a
/// bare file key; otherwise it is read as `scheme://host/type/key[/...]`
/// with an optional query and fragment.
pub open spec fn parse_detailed_spec(raw: Seq<char>) -> Result<UrlModel, Seq<char>> {
    let input = trim_spec(raw);
    if input.len() == 0 {
        Err("empty input"@)
    } else if !contains_spec(input, "figma.com"@) {
        Ok(plain_file_key_spec(input))
    } else {
        match find_spec(input, "://"@) {
            None => Err("invalid URL: missing scheme"@),
            Some(idx) => parse_after_scheme(input, input.take(idx), input.skip(idx + 3)),
        }
    }
}

// ───────────────────────── the parser ─────────────────────────

/// What std's `Debug` formatting of a string slice gives: the text in double
/// quotes with special characters escaped. The contract names the result.
#[verifier::external_body]
fn debug_str(s: &str) -> (r: String)
    ensures
        r@ == debug_quoted(s@),
{
    format!("{:?}", s)
}

fn lit(s: &str) -> (r: Vec<char>)
    ensures
        r@ == s@,
{
    to_chars(s)
}

fn opt_string(o: Option<&Vec<char>>) -> (r: Option<String>)
    ensures
        opt_view(r) == match o {
            Some(v) => Some(v@),
            None => None::<Seq<char>>,
        },
{
    match o {
        Some(v) => Some(from_chars(v.as_slice())),
        None => None,
    }
}

/// The path prefix of a Figma web link for a URL type.
pub fn figma_web_path_prefix(url_type: &[char]) -> (r: Vec<char>)
    ensures
        r@ == figma_web_path_prefix_spec(url_type@),
{
    let file = lit("file");
    let board = lit("board");
    let proto = lit("proto");
    if eq_chars(url_type, file.as_slice()) || eq_chars(url_type, board.as_slice()) || eq_chars(
        url_type,
        proto.as_slice(),
    ) {
        slice_vec(url_type, 0, url_type.len())
    } else {
        lit("design")
    }
}

/// A node id as written in a URL in the API's form (`-` becomes `:`).
pub fn node_id_url_to_api(s: &[char]) -> (r: Vec<char>)
    ensures
        r@ == node_id_url_to_api_spec(s@),
{
    replace_char(s, '-', ':')
}

fn node_from_param(raw: &[char]) -> (n: NodeFromUrl)
    ensures
        n@ == node_model(raw@),
{
    let api = node_id_url_to_api(raw);
    let api_s = from_chars(api.as_slice());
    let enc = url_encode(api_s.as_str());
    NodeFromUrl { raw: from_chars(raw), api_format: api_s, url_encoded: enc }
}

/// The links for a file, and for a node in it where one is given.
pub fn build_links(
    url_type: &[char],
    file_key: &[char],
    slug: Option<&Vec<char>>,
    node: Option<&NodeFromUrl>,
    web: &[char],
) -> (r: ParsedLinks)
    ensures
        r@ == build_links_spec(
            url_type@,
            file_key@,
            match slug {
                Some(s) => Some(s@),
                None => None,
            },
            match node {
                Some(n) => Some(n@),
                None => None,
            },
            web@,
        ),
{
    let prefix = figma_web_path_prefix(url_type);
    let mut design = lit("https://www.figma.com/");
    extend_chars(&mut design, prefix.as_slice());
    push_lit(&mut design, "/");
    extend_chars(&mut design, file_key);
    match slug {
        Some(s) => {
            push_lit(&mut design, "/");
            extend_chars(&mut design, s.as_slice());
        },
        None => {},
    }
    let mut rest_file = lit("https://api.figma.com/v1");
    push_lit(&mut rest_file, "/files/");
    extend_chars(&mut rest_file, file_key);
    let rest_nodes = match node {
        Some(n) => {
            let mut u = slice_vec(rest_file.as_slice(), 0, rest_file.len());
            push_lit(&mut u, "/nodes?ids=");
            let enc = to_chars(n.url_encoded.as_str());
            extend_chars(&mut u, enc.as_slice());
            Some(from_chars(u.as_slice()))
        },
        None => None,
    };
    let w = if web.len() == 0 {
        None
    } else {
        Some(from_chars(web))
    };
    let r = ParsedLinks {
        web: w,
        figma_design: from_chars(design.as_slice()),
        rest_file: from_chars(rest_file.as_slice()),
        rest_nodes,
    };
    proof {
        let sl = match slug {
            Some(s) => Some(s@),
            None => None::<Seq<char>>,
        };
        let expected = build_links_spec(
            url_type@,
            file_key@,
            sl,
            match node {
                Some(n) => Some(n@),
                None => None,
            },
            web@,
        );
        assert(r@.figma_design =~= expected.figma_design);
        assert(r@.rest_file =~= expected.rest_file);
        assert(r@.rest_nodes =~= expected.rest_nodes);
        assert(r@.web =~= expected.web);
    }
    r
}

fn push_lit(v: &mut Vec<char>, s: &str)
    ensures
        final(v)@ == old(v)@ + s@,
{
    let c = to_chars(s);
    extend_chars(v, c.as_slice());
}

/// A bare file key, taken as it is.
pub fn plain_file_key_parsed(key: &[char]) -> (r: ParsedFigmaUrl)
    ensures
        r@ == plain_file_key_spec(key@),
{
    let design = lit("design");
    let empty: Vec<char> = Vec::new();
    let links = build_links(design.as_slice(), key, None, None, empty.as_slice());
    let r = ParsedFigmaUrl {
        input: from_chars(key),
        kind: from_chars(lit("file_key").as_slice()),
        scheme: None,
        host: None,
        path: None,
        url_type: None,
        is_branch: false,
        parent_file_key: None,
        file_key: from_chars(key),
        file_slug: None,
        query: Vec::new(),
        sharing_view_token: None,
        node: None,
        fragment: None,
        links,
    };
    assert(r@.query =~= plain_file_key_spec(key@).query);
    assert(empty@ =~= Seq::<char>::empty());
    r
}

fn decode_chars(s: &[char]) -> (r: Vec<char>)
    ensures
        r@ == url_decode_spec(s@),
{
    let st = from_chars(s);
    let d = url_decode(st.as_str());
    to_chars(d.as_str())
}

/// Path segments, each percent-decoded, joined with `/`.
pub fn path_join_unescape(segments: &[Vec<char>]) -> (r: Vec<char>)
    ensures
        r@ == path_join_unescape_spec(views(segments@)),
{
    let mut decoded: Vec<Vec<char>> = Vec::new();
    let mut i: usize = 0;
    while i < segments.len()
        invariant
            i <= segments.len(),
            views(decoded@) == views(segments@).take(i as int).map_values(
                |s: Seq<char>| url_decode_spec(s),
            ),
        decreases segments.len() - i,
    {
        let ghost prev = views(decoded@);
        let d = decode_chars(segments[i].as_slice());
        decoded.push(d);
        assert(views(decoded@) =~= prev.push(d@));
        assert(views(segments@)[i as int] == segments@[i as int]@);
        i = i + 1;
        assert(views(segments@).take(i as int).map_values(|s: Seq<char>| url_decode_spec(s))
            =~= views(segments@).take(i - 1).map_values(|s: Seq<char>| url_decode_spec(s)).push(
            url_decode_spec(segments@[i - 1]@),
        ));
    }
    assert(views(segments@).take(segments.len() as int) =~= views(segments@));
    let sep = lit("/");
    join(&decoded, sep.as_slice())
}

fn query_entry_exec(piece: &[char], out: &mut Vec<(String, String)>)
    ensures
        pairs_view(final(out)@) == pairs_view(old(out)@) + query_entry(piece@),
{
    match split_once_char(piece, '=') {
        Some((k, v)) => {
            let d = decode_chars(v.as_slice());
            if d.len() > 0 {
                out.push((from_chars(k.as_slice()), from_chars(d.as_slice())));
                assert(pairs_view(out@) =~= pairs_view(old(out)@) + query_entry(piece@));
            } else {
                assert(query_entry(piece@) =~= Seq::<(Seq<char>, Seq<char>)>::empty());
                assert(pairs_view(out@) =~= pairs_view(old(out)@) + query_entry(piece@));
            }
        },
        None => {
            assert(pairs_view(out@) =~= pairs_view(old(out)@) + query_entry(piece@));
        },
    }
}

/// The query pairs of a query string, in order.
pub fn query_pairs(qs: &[char]) -> (r: Vec<(String, String)>)
    ensures
        pairs_view(r@) == query_pairs_spec(qs@),
{
    let pieces = split_char(qs, '&');
    let mut r: Vec<(String, String)> = Vec::new();
    let mut i: usize = 0;
    while i < pieces.len()
        invariant
            i <= pieces.len(),
            pairs_view(r@) == query_pairs_of(views(pieces@).take(i as int)),
        decreases pieces.len() - i,
    {
        query_entry_exec(pieces[i].as_slice(), &mut r);
        i = i + 1;
        assert(views(pieces@).take(i as int).drop_last() =~= views(pieces@).take(i - 1));
    }
    assert(views(pieces@).take(pieces.len() as int) =~= views(pieces@));
    r
}

fn put_pair_exec(r: &mut Vec<(String, String)>, name: String, value: String)
    ensures
        pairs_view(final(r)@) == put_pair(pairs_view(old(r)@), name@, value@),
{
    let ghost p = pairs_view(r@);
    let mut j: usize = r.len();
    assert(p.take(j as int) =~= p);
    let nm = to_chars(name.as_str());
    while j > 0
        invariant
            j <= r.len(),
            p == pairs_view(r@),
            p == pairs_view(old(r)@),
            nm@ == name@,
            name_index(p, name@) == name_index(p.take(j as int), name@),
        decreases j,
    {
        let k = to_chars(r[j - 1].0.as_str());
        assert(p.take(j as int).last() == p[j - 1]);
        if eq_chars(k.as_slice(), nm.as_slice()) {
            assert(p[j - 1].0 == name@);
            assert(name_index(p.take(j as int), name@) == Some(j - 1));
            r.set(j - 1, (name, value));
            assert(pairs_view(r@) =~= p.update(j - 1, (name@, value@)));
            return;
        }
        assert(p.take(j as int).drop_last() =~= p.take(j - 1));
        j = j - 1;
    }
    r.push((name, value));
    assert(pairs_view(r@) =~= p.push((name@, value@)));
}

/// The query pairs put one after the other: see `merge_pairs`.
pub fn merge_query(pairs: Vec<(String, String)>) -> (r: Vec<(String, String)>)
    ensures
        pairs_view(r@) == merge_pairs(pairs_view(pairs@)),
{
    let ghost p = pairs_view(pairs@);
    let mut r: Vec<(String, String)> = Vec::new();
    let mut i: usize = 0;
    assert(pairs_view(r@) =~= merge_pairs(p.take(0)));
    while i < pairs.len()
        invariant
            i <= pairs.len(),
            p == pairs_view(pairs@),
            pairs_view(r@) == merge_pairs(p.take(i as int)),
        decreases pairs.len() - i,
    {
        let name = pairs[i].0.clone();
        let value = pairs[i].1.clone();
        proof {
            assert(p.take(i + 1).drop_last() =~= p.take(i as int));
            assert(p.take(i + 1).last() == p[i as int]);
        }
        put_pair_exec(&mut r, name, value);
        i = i + 1;
    }
    assert(p.take(pairs.len() as int) =~= p);
    r
}

/// The value of a query parameter: the last pair with that name.
pub fn query_lookup(q: &Vec<(String, String)>, name: &[char]) -> (r: Option<Vec<char>>)
    ensures
        match r {
            Some(v) => query_get(pairs_view(q@), name@) == Some(v@),
            None => query_get(pairs_view(q@), name@) is None,
        },
{
    let mut i: usize = q.len();
    assert(pairs_view(q@).take(q.len() as int) =~= pairs_view(q@));
    while i > 0
        invariant
            i <= q.len(),
            query_get(pairs_view(q@), name@) == query_get(pairs_view(q@).take(i as int), name@),
        decreases i,
    {
        let k = to_chars(q[i - 1].0.as_str());
        assert(pairs_view(q@).take(i as int).last() == pairs_view(q@)[i - 1]);
        if eq_chars(k.as_slice(), name) {
            return Some(to_chars(q[i - 1].1.as_str()));
        }
        assert(pairs_view(q@).take(i as int).drop_last() =~= pairs_view(q@).take(i - 1));
        i = i - 1;
    }
    None
}


fn cut_at_exec(s: &[char], c: char) -> (r: (Vec<char>, Option<Vec<char>>))
    ensures
        r.0@ == cut_at(s@, c).0,
        match r.1 {
            Some(v) => cut_at(s@, c).1 == Some(v@),
            None => cut_at(s@, c).1 is None,
        },
{
    proof {
        lemma_find_char_from_bounds(s@, c, 0);
    }
    match find_char_from_exec(s, c, 0) {
        Some(i) => {
            let a = slice_vec(s, 0, i);
            let b = slice_vec(s, i + 1, s.len());
            assert(a@ =~= s@.take(i as int));
            assert(b@ =~= s@.skip(i + 1));
            (a, Some(b))
        },
        None => (slice_vec(s, 0, s.len()), None),
    }
}

fn parse_error_of(msg: Vec<char>) -> (e: FigmaError)
    ensures
        parse_error(e, msg@),
{
    FigmaError::Parse(from_chars(msg.as_slice()))
}

/// Reads a Figma URL, or a bare file key: see `parse_detailed_spec`.
pub fn parse_detailed(input: &str) -> (r: Result<ParsedFigmaUrl, FigmaError>)
    ensures
        match r {
            Ok(p) => parse_detailed_spec(input@) == Ok::<UrlModel, Seq<char>>(p@),
            Err(e) => exists|m: Seq<char>|
                parse_detailed_spec(input@) == Err::<UrlModel, Seq<char>>(m) && parse_error(e, m),
        },
{
    let raw = to_chars(input);
    let input = trim(raw.as_slice());
    if input.len() == 0 {
        return Err(parse_error_of(lit("empty input")));
    }
    let figma = lit("figma.com");
    if !contains(input.as_slice(), figma.as_slice()) {
        return Ok(plain_file_key_parsed(input.as_slice()));
    }
    let sep = lit("://");
    let idx = match find(input.as_slice(), sep.as_slice()) {
        Some(i) => i,
        None => {
            return Err(parse_error_of(lit("invalid URL: missing scheme")));
        },
    };
    proof {
        lemma_find_from_bounds(input@, sep@, 0);
        reveal_strlit("://");
    }
    let scheme = slice_vec(input.as_slice(), 0, idx);
    let rest = slice_vec(input.as_slice(), idx + 3, input.len());
    assert(scheme@ =~= input@.take(idx as int));
    assert(rest@ =~= input@.skip(idx + 3));
    parse_after_scheme_exec(&input, scheme, rest)
}

/// The part of `parse_detailed` after the scheme.
#[verifier::spinoff_prover]
#[verifier::rlimit(40)]
fn parse_after_scheme_exec(input: &Vec<char>, scheme: Vec<char>, rest: Vec<char>) -> (r: Result<
    ParsedFigmaUrl,
    FigmaError,
>)
    ensures
        match r {
            Ok(p) => parse_after_scheme(input@, scheme@, rest@) == Ok::<UrlModel, Seq<char>>(p@),
            Err(e) => exists|m: Seq<char>|
                parse_after_scheme(input@, scheme@, rest@) == Err::<UrlModel, Seq<char>>(m)
                    && parse_error(e, m),
        },
{
    let (host_and_path, fragment) = cut_at_exec(rest.as_slice(), '#');
    let (hp, query_string) = cut_at_exec(host_and_path.as_slice(), '?');
    proof {
        lemma_find_char_from_bounds(hp@, '/', 0);
    }
    let j = match find_char_from_exec(hp.as_slice(), '/', 0) {
        Some(j) => j,
        None => {
            return Err(parse_error_of(lit("invalid URL: missing path")));
        },
    };
    let host = slice_vec(hp.as_slice(), 0, j);
    let path = slice_vec(hp.as_slice(), j, hp.len());
    assert(host@ =~= hp@.take(j as int));
    assert(path@ =~= hp@.skip(j as int));
    let trimmed = trim_char(path.as_slice(), '/');
    let parts = split_char(trimmed.as_slice(), '/');
    if parts.len() < 2 {
        return Err(
            parse_error_of(
                lit(
                    "cannot parse Figma URL: expected /design/:fileKey/... or /file/:fileKey/...",
                ),
            ),
        );
    }
    assert(views(parts@)[0] == parts@[0]@);
    assert(views(parts@)[1] == parts@[1]@);
    let url_type = &parts[0];
    let design = lit("design");
    let file = lit("file");
    let board = lit("board");
    let proto = lit("proto");
    if !(eq_chars(url_type.as_slice(), design.as_slice()) || eq_chars(
        url_type.as_slice(),
        file.as_slice(),
    ) || eq_chars(url_type.as_slice(), board.as_slice()) || eq_chars(
        url_type.as_slice(),
        proto.as_slice(),
    )) {
        let shown = debug_str(from_chars(url_type.as_slice()).as_str());
        let mut msg = lit("cannot parse Figma URL: unsupported path type ");
        let shown_c = to_chars(shown.as_str());
        extend_chars(&mut msg, shown_c.as_slice());
        return Err(parse_error_of(msg));
    }
    let query = match &query_string {
        Some(q) => merge_query(query_pairs(q.as_slice())),
        None => Vec::new(),
    };
    assert(pairs_view(query@) == match query_string {
        Some(q) => merge_pairs(query_pairs_spec(q@)),
        None => seq![],
    }) by {
        if query_string is None {
            assert(pairs_view(query@) =~= Seq::<(Seq<char>, Seq<char>)>::empty());
        }
    }
    let branch_word = lit("branch");
    let branch = parts.len() >= 4 && eq_chars(parts[2].as_slice(), branch_word.as_slice());
    proof {
        if parts.len() >= 4 {
            assert(views(parts@)[2] == parts@[2]@);
            assert(views(parts@)[3] == parts@[3]@);
        }
    }
    let parent: Option<String> = if branch {
        Some(from_chars(parts[1].as_slice()))
    } else {
        None
    };
    let file_key: &Vec<char> = if branch {
        &parts[3]
    } else {
        &parts[1]
    };
    let slug_from: usize = if branch {
        4
    } else {
        2
    };
    let slug: Option<Vec<char>> = if parts.len() > slug_from {
        let tail = slice_segments(&parts, slug_from);
        Some(path_join_unescape(tail.as_slice()))
    } else {
        None
    };
    if file_key.len() == 0 {
        return Err(parse_error_of(lit("cannot extract file key from URL")));
    }
    let node_id_name = lit("node-id");
    let node = match query_lookup(&query, node_id_name.as_slice()) {
        Some(np) => Some(node_from_param(np.as_slice())),
        None => None,
    };
    let t_name = lit("t");
    let token = query_lookup(&query, t_name.as_slice());
    let bare = lit("figma.com");
    let mut web = lit("https://");
    if eq_chars(host.as_slice(), bare.as_slice()) {
        push_lit(&mut web, "www.figma.com");
    } else {
        extend_chars(&mut web, host.as_slice());
    }
    extend_chars(&mut web, path.as_slice());
    match &query_string {
        Some(q) => {
            push_lit(&mut web, "?");
            extend_chars(&mut web, q.as_slice());
        },
        None => {},
    }
    match &fragment {
        Some(f) => {
            push_lit(&mut web, "#");
            extend_chars(&mut web, f.as_slice());
        },
        None => {},
    }
    let links = build_links(
        url_type.as_slice(),
        file_key.as_slice(),
        match &slug {
            Some(s) => Some(s),
            None => None,
        },
        match &node {
            Some(n) => Some(n),
            None => None,
        },
        web.as_slice(),
    );
    let r = ParsedFigmaUrl {
        input: from_chars(input.as_slice()),
        kind: from_chars(lit("url").as_slice()),
        scheme: Some(from_chars(scheme.as_slice())),
        host: Some(from_chars(host.as_slice())),
        path: Some(from_chars(path.as_slice())),
        url_type: Some(from_chars(url_type.as_slice())),
        is_branch: branch,
        parent_file_key: parent,
        file_key: from_chars(file_key.as_slice()),
        file_slug: opt_string(
            match &slug {
                Some(s) => Some(s),
                None => None,
            },
        ),
        query,
        sharing_view_token: opt_string(
            match &token {
                Some(s) => Some(s),
                None => None,
            },
        ),
        node,
        fragment: opt_string(
            match &fragment {
                Some(s) => Some(s),
                None => None,
            },
        ),
        links,
    };
    proof {
        let expected = parse_after_scheme(input@, scheme@, rest@);
        assert(expected is Ok);
        let m = expected->Ok_0;
        assert(r@.links.web == m.links.web);
        assert(r@ == m);
    }
    Ok(r)
}

fn slice_segments(parts: &Vec<Vec<char>>, from: usize) -> (r: Vec<Vec<char>>)
    requires
        from <= parts.len(),
    ensures
        views(r@) == views(parts@).skip(from as int),
{
    let mut r: Vec<Vec<char>> = Vec::new();
    let mut i: usize = from;
    while i < parts.len()
        invariant
            from <= i <= parts.len(),
            views(r@) == views(parts@).subrange(from as int, i as int),
        decreases parts.len() - i,
    {
        let ghost prev = views(r@);
        r.push(slice_vec(parts[i].as_slice(), 0, parts[i].len()));
        assert(parts@[i as int]@.subrange(0, parts@[i as int]@.len() as int) =~= parts@[i as int]@);
        assert(views(r@) =~= prev.push(parts@[i as int]@));
        i = i + 1;
        assert(views(parts@).subrange(from as int, i as int) =~= views(parts@).subrange(
            from as int,
            i - 1,
        ).push(views(parts@)[i - 1]));
    }
    assert(views(parts@).subrange(from as int, parts.len() as int) =~= views(parts@).skip(
        from as int,
    ));
    r
}


/// The model of `FigmaUrl`: file key, node id in API form (empty without a
/// node) and URL type (empty for a bare file key).
pub open spec fn figma_url_of(m: UrlModel) -> (Seq<char>, Seq<char>, Seq<char>) {
    (
        m.file_key,
        match m.node {
            Some(n) => n.api_format,
            None => seq![],
        },
        if m.kind == "file_key"@ {
            seq![]
        } else {
            match m.url_type {
                Some(t) => t,
                None => seq![],
            }
        },
    )
}

/// Reads a Figma URL or file key into the file key, node id and URL type
/// that the commands use.
pub fn parse(input: &str) -> (r: Result<FigmaUrl, FigmaError>)
    ensures
        match r {
            Ok(f) => parse_detailed_spec(input@) is Ok && figma_url_of(
                parse_detailed_spec(input@)->Ok_0,
            ) == (f.file_key@, f.node_id@, f.url_type@),
            Err(e) => exists|m: Seq<char>|
                parse_detailed_spec(input@) == Err::<UrlModel, Seq<char>>(m) && parse_error(e, m),
        },
{
    let d = parse_detailed(input)?;
    let node_id = match &d.node {
        Some(n) => n.api_format.clone(),
        None => String::new(),
    };
    let kind = to_chars(d.kind.as_str());
    let file_key_word = lit("file_key");
    let url_type = if eq_chars(kind.as_slice(), file_key_word.as_slice()) {
        String::new()
    } else {
        match d.url_type {
            Some(t) => t,
            None => String::new(),
        }
    };
    Ok(FigmaUrl { file_key: d.file_key, node_id, url_type })
}

/// The file key of a Figma URL or file key; input that cannot be read is
/// returned as it is.
pub fn file_key(input: &str) -> (r: String)
    ensures
        r@ == match parse_detailed_spec(input@) {
            Ok(m) => m.file_key,
            Err(_) => input@,
        },
{
    match parse(input) {
        Ok(parsed) => parsed.file_key,
        Err(_) => from_chars(to_chars(input).as_slice()),
    }
}

} // verus!
