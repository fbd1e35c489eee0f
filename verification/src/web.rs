use vstd::prelude::*;

use crate::laboratory::{decode_utf8_lossy, percent_decode, percent_decode_bytes, utf8_lossy};
use crate::text::{
    ascii_lower_seq, ascii_lowercase, chars_of, is_white_space, pieces_view, split_chars,
    split_spec, str_eq, string_from_chars, trim_chars, trim_spec, words_spec,
};
use vstd::string::StringSliceAdditionalSpecFns;
use base64::Engine;

verus! {

/// The position of the first `c` in `s`.
pub open spec fn char_index(s: Seq<char>, c: char) -> Option<int>
    decreases s.len(),
{
    if s.len() == 0 {
        None
    } else if s[0] == c {
        Some(0)
    } else {
        match char_index(s.drop_first(), c) {
            Some(i) => Some(i + 1),
            None => None,
        }
    }
}

proof fn lemma_char_index(s: Seq<char>, c: char)
    ensures
        char_index(s, c) matches Some(i) ==> 0 <= i < s.len() && s[i] == c && forall|j: int|
            0 <= j < i ==> s[j] != c,
        char_index(s, c) is None ==> forall|j: int| 0 <= j < s.len() ==> s[j] != c,
    decreases s.len(),
{
    if s.len() > 0 {
        lemma_char_index(s.drop_first(), c);
        if s[0] != c {
            assert forall|j: int| 1 <= j < s.len() implies s[j] == s.drop_first()[j - 1] by {}
        }
    }
}

pub(crate) proof fn lemma_char_index_at(s: Seq<char>, c: char, i: int)
    requires
        0 <= i < s.len(),
        s[i] == c,
        forall|j: int| 0 <= j < i ==> s[j] != c,
    ensures
        char_index(s, c) == Some(i),
    decreases i,
{
    if i > 0 {
        assert forall|j: int| 0 <= j < i - 1 implies s.drop_first()[j] != c by {
            assert(s.drop_first()[j] == s[j + 1]);
        }
        lemma_char_index_at(s.drop_first(), c, i - 1);
    }
}

pub(crate) proof fn lemma_char_index_none(s: Seq<char>, c: char)
    requires
        forall|j: int| 0 <= j < s.len() ==> s[j] != c,
    ensures
        char_index(s, c) is None,
    decreases s.len(),
{
    if s.len() > 0 {
        assert forall|j: int| 0 <= j < s.len() - 1 implies s.drop_first()[j] != c by {
            assert(s.drop_first()[j] == s[j + 1]);
        }
        lemma_char_index_none(s.drop_first(), c);
    }
}

/// `str::split_once` at a character: the text before and after its first
/// occurrence.
pub open spec fn split_once_spec(s: Seq<char>, c: char) -> Option<(Seq<char>, Seq<char>)> {
    match char_index(s, c) {
        Some(i) => Some((s.take(i), s.skip(i + 1))),
        None => None,
    }
}

/// Splits characters at the first `c`.
pub fn split_once_char(s: &Vec<char>, c: char) -> (r: Option<(Vec<char>, Vec<char>)>)
    ensures
        match split_once_spec(s@, c) {
            Some((a, b)) => r matches Some(p) && p.0@ == a && p.1@ == b,
            None => r is None,
        },
{
    proof {
        lemma_char_index(s@, c);
    }
    let mut i: usize = 0;
    while i < s.len()
        invariant
            i <= s@.len(),
            forall|j: int| 0 <= j < i ==> s@[j] != c,
        decreases s@.len() - i,
    {
        if s[i] == c {
            let mut before: Vec<char> = Vec::new();
            let mut k: usize = 0;
            while k < i
                invariant
                    k <= i < s@.len(),
                    before@ == s@.take(k as int),
                decreases i - k,
            {
                before.push(s[k]);
                k = k + 1;
            }
            let mut after: Vec<char> = Vec::new();
            let mut m: usize = i + 1;
            while m < s.len()
                invariant
                    i + 1 <= m <= s@.len(),
                    after@ == s@.subrange(i + 1, m as int),
                decreases s@.len() - m,
            {
                after.push(s[m]);
                m = m + 1;
            }
            proof {
                lemma_char_index_at(s@, c, i as int);
            }
            return Some((before, after));
        }
        i = i + 1;
    }
    None
}

/// The lines of `s` as `str::split("\r\n")` yields them: always at least one,
/// possibly empty.
pub open spec fn crlf_lines(s: Seq<char>) -> Seq<Seq<char>>
    decreases s.len(),
{
    if s.len() == 0 {
        seq![seq![]]
    } else if s.len() >= 2 && s[s.len() - 2] == '\r' && s[s.len() - 1] == '\n' {
        crlf_lines(s.take(s.len() - 2)).push(seq![])
    } else {
        let w = crlf_lines(s.drop_last());
        w.drop_last().push(w.last().push(s.last()))
    }
}

proof fn lemma_crlf_lines_nonempty(s: Seq<char>)
    ensures
        crlf_lines(s).len() >= 1,
    decreases s.len(),
{
    if s.len() >= 2 && s[s.len() - 2] == '\r' && s[s.len() - 1] == '\n' {
        lemma_crlf_lines_nonempty(s.take(s.len() - 2));
    } else if s.len() > 0 {
        lemma_crlf_lines_nonempty(s.drop_last());
    }
}

/// Splits characters into lines at every `"\r\n"`.
pub fn split_crlf(s: &Vec<char>) -> (r: Vec<Vec<char>>)
    ensures
        pieces_view(r@) == crlf_lines(s@),
{
    let n = s.len();
    let mut pieces: Vec<Vec<char>> = Vec::new();
    let mut cur: Vec<char> = Vec::new();
    let mut i: usize = 0;
    assert(s@.take(0) == Seq::<char>::empty());
    assert(pieces_view(pieces@).push(cur@) == seq![Seq::<char>::empty()]);
    while i < n
        invariant
            i <= n,
            n == s@.len(),
            crlf_lines(s@.take(i as int)) == pieces_view(pieces@).push(cur@),
            i > 0 && i < n && s@[i - 1] == '\r' ==> s@[i as int] != '\n',
        decreases n - i,
    {
        let c = s[i];
        if c == '\r' && i + 1 < n && s[i + 1] == '\n' {
            let ghost t = s@.take(i + 2);
            assert(t.take(t.len() - 2) == s@.take(i as int));
            let ghost before = pieces_view(pieces@);
            let done = cur;
            pieces.push(done);
            cur = Vec::new();
            assert(pieces_view(pieces@) == before.push(done@));
            i = i + 2;
        } else {
            let ghost t = s@.take(i + 1);
            assert(t.drop_last() == s@.take(i as int));
            assert(t.last() == c);
            if i >= 1 {
                assert(t[t.len() - 2] == s@[i - 1]);
            }
            let ghost old_cur = cur@;
            cur.push(c);
            assert(pieces_view(pieces@).push(old_cur).drop_last() == pieces_view(pieces@));
            i = i + 1;
        }
    }
    assert(s@.take(n as int) == s@);
    let ghost before = pieces_view(pieces@);
    let last = cur;
    pieces.push(last);
    assert(pieces_view(pieces@) == before.push(last@));
    pieces
}

/// A header line as the request keeps it: the name trimmed and lowercased
/// (ASCII), the value trimmed. A line without `:` is no header.
pub open spec fn header_entry(line: Seq<char>) -> Option<(Seq<char>, Seq<char>)> {
    match split_once_spec(line, ':') {
        Some((k, v)) => Some((ascii_lower_seq(trim_spec(k)), trim_spec(v))),
        None => None,
    }
}

/// The headers of the given lines, in order.
pub open spec fn header_entries(lines: Seq<Seq<char>>) -> Seq<(Seq<char>, Seq<char>)>
    decreases lines.len(),
{
    if lines.len() == 0 {
        seq![]
    } else {
        let rest = header_entries(lines.drop_last());
        match header_entry(lines.last()) {
            Some(e) => rest.push(e),
            None => rest,
        }
    }
}

/// The value of a header: the last one of that name wins, as in a map that
/// each header line is inserted into.
pub open spec fn lookup_last(entries: Seq<(Seq<char>, Seq<char>)>, key: Seq<char>) -> Option<Seq<char>>
    decreases entries.len(),
{
    if entries.len() == 0 {
        None
    } else if entries.last().0 == key {
        Some(entries.last().1)
    } else {
        lookup_last(entries.drop_last(), key)
    }
}

/// The views of a list of pairs of strings.
pub open spec fn pairs_view(v: Seq<(String, String)>) -> Seq<(Seq<char>, Seq<char>)> {
    v.map_values(|p: (String, String)| (p.0@, p.1@))
}

/// The request line and headers of an HTTP request.
#[derive(Debug, Clone)]
pub struct HttpRequest {
    pub method: String,
    pub path: String,
    pub headers: Vec<(String, String)>,
}

/// The `n`th word of `s`, or nothing.
pub open spec fn word_or_empty(s: Seq<char>, n: int) -> Seq<char> {
    if words_spec(s).len() > n {
        words_spec(s)[n]
    } else {
        seq![]
    }
}

/// The request read from the text of an HTTP head: method and path are the
/// first two words of the first line, and both must be there.
pub open spec fn request_spec(text: Seq<char>) -> Result<
    (Seq<char>, Seq<char>, Seq<(Seq<char>, Seq<char>)>),
    Seq<char>,
> {
    let lines = crlf_lines(text);
    let method = word_or_empty(lines[0], 0);
    let path = word_or_empty(lines[0], 1);
    if method.len() == 0 || path.len() == 0 {
        Err("HTTP 请求行无效"@)
    } else {
        Ok((method, path, header_entries(lines.drop_first())))
    }
}

fn words_of(s: &Vec<char>) -> (r: Vec<Vec<char>>)
    ensures
        pieces_view(r@) == words_spec(s@),
{
    let mut out: Vec<Vec<char>> = Vec::new();
    let mut i: usize = 0;
    assert(s@.take(0) == Seq::<char>::empty());
    while i < s.len()
        invariant
            i <= s@.len(),
            pieces_view(out@) == words_spec(s@.take(i as int)),
        decreases s@.len() - i,
    {
        let c = s[i];
        let ghost cur = s@.take(i + 1);
        assert(cur.drop_last() == s@.take(i as int));
        assert(cur.last() == c);
        if crate::text::char_is_whitespace(c) {
        } else if i >= 1 && !crate::text::char_is_whitespace(s[i - 1]) {
            assert(cur[cur.len() - 2] == s@[i - 1]);
            let ghost before = pieces_view(out@);
            proof {
                assert(before.len() > 0) by {
                    lemma_words_nonempty_after_word(s@.take(i as int));
                }
            }
            let mut last = out.pop().unwrap();
            let ghost old_last = last@;
            last.push(c);
            assert(pieces_view(out@) == before.drop_last());
            let ghost mid = pieces_view(out@);
            out.push(last);
            assert(pieces_view(out@) == mid.push(last@));
            assert(old_last == before.last());
        } else {
            if i >= 1 {
                assert(cur[cur.len() - 2] == s@[i - 1]);
            }
            let ghost before = pieces_view(out@);
            let mut w: Vec<char> = Vec::new();
            w.push(c);
            out.push(w);
            assert(pieces_view(out@) == before.push(seq![c]));
        }
        i = i + 1;
    }
    assert(s@.take(s@.len() as int) == s@);
    out
}

proof fn lemma_words_nonempty_after_word(s: Seq<char>)
    requires
        s.len() > 0,
        !is_white_space(s.last()),
    ensures
        words_spec(s).len() > 0,
    decreases s.len(),
{
    if s.len() >= 2 && !is_white_space(s[s.len() - 2]) {
        assert(s.drop_last().last() == s[s.len() - 2]);
        lemma_words_nonempty_after_word(s.drop_last());
    }
}

fn parse_header_lines(lines: &Vec<Vec<char>>) -> (r: Vec<(String, String)>)
    requires
        lines@.len() >= 1,
    ensures
        pairs_view(r@) == header_entries(pieces_view(lines@).drop_first()),
{
    let mut out: Vec<(String, String)> = Vec::new();
    let mut i: usize = 1;
    let ghost all = pieces_view(lines@);
    assert(all.drop_first().take(0) == Seq::<Seq<char>>::empty());
    while i < lines.len()
        invariant
            1 <= i <= lines@.len(),
            all == pieces_view(lines@),
            pairs_view(out@) == header_entries(all.drop_first().take(i - 1)),
        decreases lines@.len() - i,
    {
        let ghost part = all.drop_first().take(i as int);
        assert(part.drop_last() == all.drop_first().take(i - 1));
        assert(part.last() == lines@[i as int]@);
        match split_once_char(&lines[i], ':') {
            Some((k, v)) => {
                let key = ascii_lowercase(&trim_chars(&k));
                let value = trim_chars(&v);
                let ghost before = pairs_view(out@);
                out.push((string_from_chars(&key), string_from_chars(&value)));
                assert(pairs_view(out@) == before.push((key@, value@)));
            },
            None => {},
        }
        i = i + 1;
    }
    assert(all.drop_first().take(lines@.len() - 1) == all.drop_first());
    out
}

/// Reads the request line and headers from the bytes of an HTTP head,
/// decoding them as lossy UTF-8.
pub fn parse_http_request(bytes: &[u8]) -> (r: Result<HttpRequest, String>)
    ensures
        match request_spec(utf8_lossy(bytes@)) {
            Ok((m, p, h)) => r matches Ok(req) && req.method@ == m && req.path@ == p
                && pairs_view(req.headers@) == h,
            Err(e) => r matches Err(x) && x@ == e,
        },
{
    let text = decode_utf8_lossy(bytes);
    let chars = chars_of(text.as_str());
    let lines = split_crlf(&chars);
    proof {
        lemma_crlf_lines_nonempty(chars@);
    }
    let words = words_of(&lines[0]);
    let method = if words.len() > 0 {
        string_from_chars(&words[0])
    } else {
        string_from_chars(&Vec::new())
    };
    let path = if words.len() > 1 {
        string_from_chars(&words[1])
    } else {
        string_from_chars(&Vec::new())
    };
    if method.as_str().is_empty() || path.as_str().is_empty() {
        return Err(string_from_chars(&chars_of("HTTP 请求行无效")));
    }
    let headers = parse_header_lines(&lines);
    Ok(HttpRequest { method, path, headers })
}

/// The value stored for `key`, the last entry of that key winning.
pub fn pair_lookup(entries: &Vec<(String, String)>, key: &str) -> (r: Option<String>)
    ensures
        crate::player::opt_view(r) == lookup_last(pairs_view(entries@), key@),
{
    let mut i: usize = entries.len();
    let ghost all = pairs_view(entries@);
    assert(all.take(all.len() as int) == all);
    while i > 0
        invariant
            i <= entries@.len(),
            all == pairs_view(entries@),
            lookup_last(all, key@) == lookup_last(all.take(i as int), key@),
        decreases i,
    {
        let ghost part = all.take(i as int);
        assert(part.last() == (entries@[i - 1].0@, entries@[i - 1].1@));
        if str_eq(entries[i - 1].0.as_str(), key) {
            return Some(entries[i - 1].1.clone());
        }
        assert(part.drop_last() == all.take(i - 1));
        i = i - 1;
    }
    None
}

/// Percent-decoding of text, through its UTF-8 bytes.
pub open spec fn percent_decode_text(s: Seq<char>) -> Seq<char> {
    utf8_lossy(percent_decode_bytes(vstd::utf8::encode_utf8(s)))
}

/// The query parameters of the given `key=value` pieces, decoded; a piece
/// without `=` is skipped.
pub open spec fn query_entries(pieces: Seq<Seq<char>>) -> Seq<(Seq<char>, Seq<char>)>
    decreases pieces.len(),
{
    if pieces.len() == 0 {
        seq![]
    } else {
        let rest = query_entries(pieces.drop_last());
        match split_once_spec(pieces.last(), '=') {
            Some((k, v)) => rest.push((percent_decode_text(k), percent_decode_text(v))),
            None => rest,
        }
    }
}

/// A request target split into its path and its decoded query parameters.
pub open spec fn path_query_spec(target: Seq<char>) -> (Seq<char>, Seq<(Seq<char>, Seq<char>)>) {
    match split_once_spec(target, '?') {
        Some((path, raw)) => (path, query_entries(split_spec(raw, '&'))),
        None => (target, seq![]),
    }
}

fn decode_piece(p: &Vec<char>) -> (r: String)
    ensures
        r@ == percent_decode_text(p@),
{
    let s = string_from_chars(p);
    percent_decode(s.as_str())
}

/// Splits a request target into its path and its query parameters.
pub fn split_path_query(target: &str) -> (r: (String, Vec<(String, String)>))
    ensures
        r.0@ == path_query_spec(target@).0,
        pairs_view(r.1@) == path_query_spec(target@).1,
{
    let chars = chars_of(target);
    match split_once_char(&chars, '?') {
        None => (string_from_chars(&chars), Vec::new()),
        Some((path, raw)) => {
            let pieces = split_chars(&raw, '&');
            let mut out: Vec<(String, String)> = Vec::new();
            let mut i: usize = 0;
            let ghost all = pieces_view(pieces@);
            assert(all.take(0) == Seq::<Seq<char>>::empty());
            while i < pieces.len()
                invariant
                    i <= pieces@.len(),
                    all == pieces_view(pieces@),
                    pairs_view(out@) == query_entries(all.take(i as int)),
                decreases pieces@.len() - i,
            {
                let ghost part = all.take(i + 1);
                assert(part.drop_last() == all.take(i as int));
                assert(part.last() == pieces@[i as int]@);
                match split_once_char(&pieces[i], '=') {
                    Some((k, v)) => {
                        let key = decode_piece(&k);
                        let value = decode_piece(&v);
                        let ghost before = pairs_view(out@);
                        out.push((key, value));
                        assert(pairs_view(out@) == before.push((key@, value@)));
                    },
                    None => {},
                }
                i = i + 1;
            }
            assert(all.take(all.len() as int) == all);
            (string_from_chars(&path), out)
        },
    }
}

/// Whether `token` is the web access token on record; a missing or blank
/// record admits no token.
pub open spec fn web_token_valid(stored: Option<Seq<char>>, token: Seq<char>) -> bool {
    stored matches Some(t) && t.len() > 0 && t == token
}

/// Checks a web access token against the one on record.
pub fn valid_web_token(stored: &Option<String>, token: &str) -> (r: bool)
    ensures
        r == web_token_valid(crate::player::opt_view(*stored), token@),
{
    match stored {
        Some(t) => !t.as_str().is_empty() && str_eq(t.as_str(), token),
        None => false,
    }
}

/// Whether a password opens the server: with a password on record it must be
/// that one, without one it must be empty.
pub open spec fn password_opens(stored: Option<Seq<char>>, password: Seq<char>) -> bool {
    match stored {
        Some(p) => p == password,
        None => password.len() == 0,
    }
}

/// Checks a client's password against the server password on record.
pub fn server_password_matches(stored: &Option<String>, password: &str) -> (r: bool)
    ensures
        r == password_opens(crate::player::opt_view(*stored), password@),
{
    match stored {
        Some(p) => str_eq(p.as_str(), password),
        None => password.is_empty(),
    }
}

/// An application client is admitted over HTTP when it names itself (a
/// non-blank `x-lyrics-plus-client` header) and, where the server has a
/// password, sends it in `x-lyrics-plus-password`.
pub open spec fn http_client_valid(
    headers: Seq<(Seq<char>, Seq<char>)>,
    stored: Option<Seq<char>>,
) -> bool {
    match lookup_last(headers, "x-lyrics-plus-client"@) {
        None => false,
        Some(id) => {
            let password = match lookup_last(headers, "x-lyrics-plus-password"@) {
                Some(p) => p,
                None => seq![],
            };
            !(stored matches Some(p) && p != password) && trim_spec(id).len() > 0
        },
    }
}

/// Checks the client headers of an HTTP request.
pub fn valid_http_client(headers: &Vec<(String, String)>, stored: &Option<String>) -> (r: bool)
    ensures
        r == http_client_valid(pairs_view(headers@), crate::player::opt_view(*stored)),
{
    let id = match pair_lookup(headers, "x-lyrics-plus-client") {
        Some(id) => id,
        None => {
            return false;
        },
    };
    let password = match pair_lookup(headers, "x-lyrics-plus-password") {
        Some(p) => p,
        None => string_from_chars(&Vec::new()),
    };
    if let Some(p) = stored {
        if !str_eq(p.as_str(), password.as_str()) {
            return false;
        }
    }
    let trimmed = crate::text::trim_str(id.as_str());
    trimmed.len() > 0
}

/// `str::trim_start_matches` with a text pattern: every leading copy of
/// `prefix` is removed.
pub open spec fn strip_prefixes(s: Seq<char>, prefix: Seq<char>) -> Seq<char>
    decreases s.len(),
{
    if prefix.len() > 0 && crate::text::has_prefix(s, prefix) {
        strip_prefixes(s.skip(prefix.len() as int), prefix)
    } else {
        s
    }
}

fn strip_prefixes_exec(s: &Vec<char>, prefix: &str) -> (r: Vec<char>)
    requires
        prefix@.len() > 0,
    ensures
        r@ == strip_prefixes(s@, prefix@),
{
    let p = chars_of(prefix);
    let mut start: usize = 0;
    assert(s@.skip(0) == s@);
    loop
        invariant
            start <= s@.len(),
            p@ == prefix@,
            p@.len() > 0,
            strip_prefixes(s@, prefix@) == strip_prefixes(s@.skip(start as int), prefix@),
        decreases s@.len() - start,
    {
        let mut rest: Vec<char> = Vec::new();
        let mut k: usize = start;
        while k < s.len()
            invariant
                start <= k <= s@.len(),
                rest@ == s@.subrange(start as int, k as int),
            decreases s@.len() - k,
        {
            rest.push(s[k]);
            k = k + 1;
        }
        assert(rest@ == s@.skip(start as int));
        if crate::text::chars_start_with(&rest, prefix) {
            assert(s@.skip(start as int).skip(p@.len() as int) == s@.skip(start + p@.len()));
            start = start + p.len();
        } else {
            return rest;
        }
    }
}

/// What the laboratory server does with an HTTP request.
#[derive(Debug, Clone)]
pub enum HttpRoute {
    /// A plain-text answer with this status.
    Respond { status: u16, reason: &'static str, body: &'static str },
    /// The connection becomes a WebSocket, for a web page or for an
    /// application client.
    WebSocket { web: bool },
    /// The web page that hosts the themes, for this token.
    Shell { token: String },
    /// The theme SDK script.
    Sdk,
    /// The list of installed themes.
    Themes,
    /// A file of a theme.
    ThemeFile { theme_id: String, entry: String },
    /// Cover art; `raw_image` asks for the image itself rather than its JSON
    /// description.
    Artwork { artwork_id: String, raw_image: bool },
}

pub open spec fn responds(r: HttpRoute, status: u16, body: Seq<char>) -> bool {
    r matches HttpRoute::Respond { status: s, body: b, .. } && s == status && b@ == body
}

/// The token carried in the query of a `Referer` header.
pub open spec fn referer_token(headers: Seq<(Seq<char>, Seq<char>)>) -> Option<Seq<char>> {
    match lookup_last(headers, "referer"@) {
        Some(referer) => lookup_last(path_query_spec(referer).1, "token"@),
        None => None,
    }
}

pub open spec fn token_ok(web_enabled: bool, stored: Option<Seq<char>>, token: Option<Seq<char>>) -> bool {
    web_enabled && (token matches Some(t) && web_token_valid(stored, t))
}

/// The route of a request, given whether the web service is on, the web
/// token and the server password on record.
pub open spec fn route_spec(
    method: Seq<char>,
    target: Seq<char>,
    headers: Seq<(Seq<char>, Seq<char>)>,
    web_enabled: bool,
    web_token: Option<Seq<char>>,
    password: Option<Seq<char>>,
    r: HttpRoute,
) -> bool {
    let path = path_query_spec(target).0;
    let query = path_query_spec(target).1;
    let token = lookup_last(query, "token"@);
    let web_access = token_ok(web_enabled, web_token, token) || token_ok(
        web_enabled,
        web_token,
        referer_token(headers),
    );
    let app_access = http_client_valid(headers, password);
    let is_artwork = crate::text::has_prefix(path, "/artwork/"@);
    if method != "GET"@ {
        responds(r, 405, "method not allowed"@)
    } else if path == "/ws"@ {
        if token is Some && !web_enabled {
            responds(r, 404, "web service disabled"@)
        } else if token matches Some(t) && !web_token_valid(web_token, t) {
            responds(r, 401, "invalid token"@)
        } else {
            r == HttpRoute::WebSocket { web: token is Some }
        }
    } else if (is_artwork && !web_access && !app_access) || (!is_artwork && !web_access) {
        responds(r, 401, "web access token required"@)
    } else if path == "/"@ {
        r matches HttpRoute::Shell { token: t } && t@ == match token {
            Some(t) => t,
            None => seq![],
        }
    } else if path == "/sdk.js"@ {
        r is Sdk
    } else if path == "/themes"@ {
        r is Themes
    } else if crate::text::has_prefix(path, "/theme/"@) {
        let relative = strip_prefixes(path, "/theme/"@);
        let (id, entry) = match split_once_spec(relative, '/') {
            Some((a, b)) => (a, b),
            None => (relative, seq![]),
        };
        r matches HttpRoute::ThemeFile { theme_id, entry: e } && theme_id@ == percent_decode_text(
            id,
        ) && e@ == percent_decode_text(entry)
    } else if is_artwork {
        r matches HttpRoute::Artwork { artwork_id, raw_image } && artwork_id@
            == percent_decode_text(strip_prefixes(path, "/artwork/"@)) && raw_image == (web_access
            && !app_access)
    } else {
        responds(r, 404, "not found"@)
    }
}

fn token_matches(web_enabled: bool, stored: &Option<String>, token: &Option<String>) -> (r: bool)
    ensures
        r == token_ok(web_enabled, crate::player::opt_view(*stored), crate::player::opt_view(*token)),
{
    match token {
        Some(t) => web_enabled && valid_web_token(stored, t.as_str()),
        None => false,
    }
}

/// Decides how the laboratory server answers a request.
pub fn route_request(
    request: &HttpRequest,
    web_enabled: bool,
    web_token: &Option<String>,
    password: &Option<String>,
) -> (r: HttpRoute)
    ensures
        route_spec(
            request.method@,
            request.path@,
            pairs_view(request.headers@),
            web_enabled,
            crate::player::opt_view(*web_token),
            crate::player::opt_view(*password),
            r,
        ),
{
    proof {
        reveal_strlit("GET");
        reveal_strlit("/ws");
        reveal_strlit("/");
        reveal_strlit("/sdk.js");
        reveal_strlit("/themes");
        reveal_strlit("/theme/");
        reveal_strlit("/artwork/");
    }
    if !str_eq(request.method.as_str(), "GET") {
        return HttpRoute::Respond {
            status: 405,
            reason: "Method Not Allowed",
            body: "method not allowed",
        };
    }
    let (path, query) = split_path_query(request.path.as_str());
    let token = pair_lookup(&query, "token");
    if str_eq(path.as_str(), "/ws") {
        if let Some(t) = &token {
            if !web_enabled {
                return HttpRoute::Respond {
                    status: 404,
                    reason: "Not Found",
                    body: "web service disabled",
                };
            }
            if !valid_web_token(web_token, t.as_str()) {
                return HttpRoute::Respond {
                    status: 401,
                    reason: "Unauthorized",
                    body: "invalid token",
                };
            }
        }
        return HttpRoute::WebSocket { web: token.is_some() };
    }
    let token_valid = token_matches(web_enabled, web_token, &token);
    let referer = match pair_lookup(&request.headers, "referer") {
        Some(referer) => {
            let (_, referer_query) = split_path_query(referer.as_str());
            pair_lookup(&referer_query, "token")
        },
        None => None,
    };
    let referer_valid = token_matches(web_enabled, web_token, &referer);
    let web_access = token_valid || referer_valid;
    let app_access = valid_http_client(&request.headers, password);
    let path_chars = chars_of(path.as_str());
    let is_artwork = crate::text::chars_start_with(&path_chars, "/artwork/");
    if (is_artwork && !web_access && !app_access) || (!is_artwork && !web_access) {
        return HttpRoute::Respond {
            status: 401,
            reason: "Unauthorized",
            body: "web access token required",
        };
    }
    if str_eq(path.as_str(), "/") {
        let t = match token {
            Some(t) => t,
            None => string_from_chars(&Vec::new()),
        };
        return HttpRoute::Shell { token: t };
    }
    if str_eq(path.as_str(), "/sdk.js") {
        return HttpRoute::Sdk;
    }
    if str_eq(path.as_str(), "/themes") {
        return HttpRoute::Themes;
    }
    if crate::text::chars_start_with(&path_chars, "/theme/") {
        let relative = strip_prefixes_exec(&path_chars, "/theme/");
        let (id, entry) = match split_once_char(&relative, '/') {
            Some((a, b)) => (a, b),
            None => (relative, Vec::new()),
        };
        return HttpRoute::ThemeFile { theme_id: decode_piece(&id), entry: decode_piece(&entry) };
    }
    if is_artwork {
        let id = strip_prefixes_exec(&path_chars, "/artwork/");
        return HttpRoute::Artwork { artwork_id: decode_piece(&id), raw_image: web_access && !app_access };
    }
    HttpRoute::Respond { status: 404, reason: "Not Found", body: "not found" }
}

/// The base64 digit of a 6-bit value (RFC 4648): `A`–`Z`, `a`–`z`, `0`–`9`,
/// then `+` and `/`, or `-` and `_` in the URL-safe alphabet.
pub open spec fn base64_digit(v: int, url_safe: bool) -> char {
    if v < 26 {
        (65 + v) as char
    } else if v < 52 {
        (97 + v - 26) as char
    } else if v < 62 {
        (48 + v - 52) as char
    } else if v == 62 {
        if url_safe {
            '-'
        } else {
            '+'
        }
    } else {
        if url_safe {
            '_'
        } else {
            '/'
        }
    }
}

/// Base64 (RFC 4648): each three bytes become four digits; a last group of
/// one or two bytes becomes two or three digits, padded with `=` to four
/// when `padded`.
pub open spec fn base64_spec(bytes: Seq<u8>, url_safe: bool, padded: bool) -> Seq<char>
    decreases bytes.len(),
{
    if bytes.len() == 0 {
        seq![]
    } else if bytes.len() == 1 {
        let b0 = bytes[0] as int;
        seq![base64_digit(b0 / 4, url_safe), base64_digit((b0 % 4) * 16, url_safe)] + if padded {
            seq!['=', '=']
        } else {
            seq![]
        }
    } else if bytes.len() == 2 {
        let b0 = bytes[0] as int;
        let b1 = bytes[1] as int;
        seq![
            base64_digit(b0 / 4, url_safe),
            base64_digit((b0 % 4) * 16 + b1 / 16, url_safe),
            base64_digit((b1 % 16) * 4, url_safe),
        ] + if padded {
            seq!['=']
        } else {
            seq![]
        }
    } else {
        let b0 = bytes[0] as int;
        let b1 = bytes[1] as int;
        let b2 = bytes[2] as int;
        seq![
            base64_digit(b0 / 4, url_safe),
            base64_digit((b0 % 4) * 16 + b1 / 16, url_safe),
            base64_digit((b1 % 16) * 4 + b2 / 64, url_safe),
            base64_digit(b2 % 64, url_safe),
        ] + base64_spec(bytes.skip(3), url_safe, padded)
    }
}

/// What `base64`'s standard engine (RFC 4648 alphabet, with padding) makes of
/// bytes.
pub open spec fn base64_standard(bytes: Seq<u8>) -> Seq<char> {
    base64_spec(bytes, false, true)
}

/// Encodes bytes with `base64::engine::general_purpose::STANDARD`: the RFC 4648
/// encoding that `base64_spec` states, with padding.
#[verifier::external_body]
pub(crate) fn encode_base64_standard(bytes: &[u8]) -> (r: String)
    ensures
        r@ == base64_standard(bytes@),
{
    base64::engine::general_purpose::STANDARD.encode(bytes)
}

/// The text that RFC 6455 appends to a client's key.
pub open spec fn websocket_guid() -> Seq<char> {
    "258EAFA5-E914-47DA-95CA-C5AB0DC85B11"@
}

/// The `Sec-WebSocket-Accept` value for a client's key: the base64 of the
/// SHA-1 digest of the key followed by the protocol's fixed text.
pub open spec fn accept_key_spec(key: Seq<char>) -> Seq<char> {
    base64_standard(crate::sha1::sha1_spec(vstd::utf8::encode_utf8(key + websocket_guid())))
}

proof fn lemma_encode_utf8_len(s: Seq<char>)
    ensures
        vstd::utf8::encode_utf8(s).len() <= 4 * s.len(),
    decreases s.len(),
{
    if s.len() > 0 {
        lemma_encode_utf8_len(s.drop_first());
    }
}

/// Computes the answer to a WebSocket handshake key.
pub fn websocket_accept(key: &str) -> (r: String)
    requires
        key@.len() <= 0x0100_0000_0000_0000,
    ensures
        r@ == accept_key_spec(key@),
{
    let mut text = chars_of(key);
    let guid = chars_of("258EAFA5-E914-47DA-95CA-C5AB0DC85B11");
    crate::text::push_chars(&mut text, &guid);
    proof {
        reveal_strlit("258EAFA5-E914-47DA-95CA-C5AB0DC85B11");
        lemma_encode_utf8_len(text@);
    }
    let joined = string_from_chars(&text);
    let bytes = joined.as_str().as_bytes();
    let digest = crate::sha1::sha1_digest(bytes);
    encode_base64_standard(digest.as_slice())
}

/// The eight big-endian bytes of `n`.
pub open spec fn be64_spec(n: u64) -> Seq<u8> {
    seq![
        (n >> 56u64) as u8,
        (n >> 48u64) as u8,
        (n >> 40u64) as u8,
        (n >> 32u64) as u8,
        (n >> 24u64) as u8,
        (n >> 16u64) as u8,
        (n >> 8u64) as u8,
        n as u8,
    ]
}

fn push_be64(out: &mut Vec<u8>, n: u64)
    ensures
        final(out)@ == old(out)@ + be64_spec(n),
{
    out.push((n >> 56u64) as u8);
    out.push((n >> 48u64) as u8);
    out.push((n >> 40u64) as u8);
    out.push((n >> 32u64) as u8);
    out.push((n >> 24u64) as u8);
    out.push((n >> 16u64) as u8);
    out.push((n >> 8u64) as u8);
    out.push(n as u8);
}

/// The second header byte and extended length of a frame carrying `n`
/// payload bytes.
pub open spec fn ws_length_bytes(n: nat, mask_bit: u8) -> Seq<u8> {
    if n <= 125 {
        seq![(mask_bit + n) as u8]
    } else if n <= 65535 {
        seq![(mask_bit + 126) as u8, (n / 256) as u8, (n % 256) as u8]
    } else {
        seq![(mask_bit + 127) as u8] + be64_spec(n as u64)
    }
}

/// `payload` with each byte XORed with the mask byte at its position modulo
/// four.
pub open spec fn masked_spec(payload: Seq<u8>, mask: Seq<u8>) -> Seq<u8> {
    Seq::new(payload.len(), |i: int| payload[i] ^ mask[i % 4])
}

/// Applies a WebSocket mask; applying it twice gives the payload back.
pub fn apply_mask(payload: &[u8], mask: &[u8; 4]) -> (r: Vec<u8>)
    ensures
        r@ == masked_spec(payload@, mask@),
{
    let mut out: Vec<u8> = Vec::new();
    let mut i: usize = 0;
    while i < payload.len()
        invariant
            i <= payload@.len(),
            out@ == masked_spec(payload@, mask@).take(i as int),
        decreases payload@.len() - i,
    {
        let b = payload[i] ^ mask[i % 4];
        out.push(b);
        i = i + 1;
    }
    assert(masked_spec(payload@, mask@).take(payload@.len() as int) == masked_spec(payload@, mask@));
    out
}

/// Masking twice with the same mask restores the payload.
pub proof fn mask_is_involution(payload: Seq<u8>, mask: Seq<u8>)
    requires
        mask.len() == 4,
    ensures
        masked_spec(masked_spec(payload, mask), mask) == payload,
{
    assert forall|i: int| 0 <= i < payload.len() implies masked_spec(
        masked_spec(payload, mask),
        mask,
    )[i] == payload[i] by {
        let p = payload[i];
        let m = mask[i % 4];
        assert((p ^ m) ^ m == p) by (bit_vector);
    }
    assert(masked_spec(masked_spec(payload, mask), mask) =~= payload);
}

/// A final text frame carrying `text`, masked when a mask is given.
pub open spec fn text_frame_spec(text: Seq<u8>, mask: Option<Seq<u8>>) -> Seq<u8> {
    match mask {
        Some(m) => seq![0x81u8] + ws_length_bytes(text.len(), 0x80) + m + masked_spec(text, m),
        None => seq![0x81u8] + ws_length_bytes(text.len(), 0) + text,
    }
}

/// Builds the frame of a text message.
pub fn ws_text_frame(text: &str, mask: Option<[u8; 4]>) -> (r: Vec<u8>)
    ensures
        r@ == text_frame_spec(
            text.spec_bytes(),
            match mask {
                Some(m) => Some(m@),
                None => None,
            },
        ),
{
    let payload = text.as_bytes();
    let n = payload.len();
    let mask_bit: u8 = if mask.is_some() {
        0x80
    } else {
        0
    };
    let mut frame: Vec<u8> = Vec::new();
    frame.push(0x81);
    if n <= 125 {
        frame.push(mask_bit + n as u8);
    } else if n <= 65535 {
        frame.push(mask_bit + 126);
        frame.push((n / 256) as u8);
        frame.push((n % 256) as u8);
    } else {
        frame.push(mask_bit + 127);
        push_be64(&mut frame, n as u64);
    }
    let ghost head = frame@;
    assert(head == seq![0x81u8] + ws_length_bytes(n as nat, mask_bit));
    match mask {
        Some(m) => {
            frame.push(m[0]);
            frame.push(m[1]);
            frame.push(m[2]);
            frame.push(m[3]);
            assert(frame@ == head + m@);
            let body = apply_mask(payload, &m);
            let ghost before = frame@;
            let mut i: usize = 0;
            while i < body.len()
                invariant
                    i <= body@.len(),
                    frame@ == before + body@.take(i as int),
                decreases body@.len() - i,
            {
                frame.push(body[i]);
                i = i + 1;
            }
            assert(body@.take(body@.len() as int) == body@);
        },
        None => {
            let ghost before = frame@;
            let mut i: usize = 0;
            while i < n
                invariant
                    i <= n,
                    n == payload@.len(),
                    frame@ == before + payload@.take(i as int),
                decreases n - i,
            {
                frame.push(payload[i]);
                i = i + 1;
            }
            assert(payload@.take(n as int) == payload@);
        },
    }
    frame
}

/// What the two header bytes of a frame say: its opcode, whether it is
/// masked, and the seven-bit length field.
pub fn ws_frame_head(first: u8, second: u8) -> (r: (u8, bool, u8))
    ensures
        r.0 == first & 0x0f,
        r.1 == (second & 0x80 != 0),
        r.2 == second & 0x7f,
{
    (first & 0x0f, second & 0x80 != 0, second & 0x7f)
}

/// How many extended length bytes follow a seven-bit length field.
pub fn ws_extended_length_bytes(length7: u8) -> (r: usize)
    ensures
        r == if length7 == 126 {
            2usize
        } else if length7 == 127 {
            8usize
        } else {
            0usize
        },
{
    if length7 == 126 {
        2
    } else if length7 == 127 {
        8
    } else {
        0
    }
}

/// The big-endian value of bytes.
pub open spec fn be_value(b: Seq<u8>) -> nat
    decreases b.len(),
{
    if b.len() == 0 {
        0
    } else {
        (be_value(b.drop_last()) * 256 + b.last()) as nat
    }
}

/// The payload length of a frame: the seven-bit field, or the extended
/// length bytes read after it.
pub fn ws_payload_length(length7: u8, extended: &[u8]) -> (r: u64)
    requires
        length7 < 128,
        extended@.len() == if length7 == 126 {
            2int
        } else if length7 == 127 {
            8int
        } else {
            0int
        },
    ensures
        r == if length7 == 126 || length7 == 127 {
            be_value(extended@)
        } else {
            length7 as nat
        },
{
    if length7 == 126 || length7 == 127 {
        let mut v: u64 = 0;
        let mut i: usize = 0;
        while i < extended.len()
            invariant
                i <= extended@.len() <= 8,
                v == be_value(extended@.take(i as int)),
                v < pow256(i as nat),
            decreases extended@.len() - i,
        {
            assert(extended@.take(i + 1).drop_last() == extended@.take(i as int));
            proof {
                lemma_pow256_step(i as nat);
            }
            assert(v * 256 + extended[i as int] < pow256((i + 1) as nat)) by (nonlinear_arith)
                requires
                    v < pow256(i as nat),
                    pow256((i + 1) as nat) == pow256(i as nat) * 256,
                    extended[i as int] < 256,
            ;
            v = v * 256 + extended[i] as u64;
            i = i + 1;
        }
        assert(extended@.take(extended@.len() as int) == extended@);
        v
    } else {
        length7 as u64
    }
}

pub open spec fn pow256(n: nat) -> nat
    decreases n,
{
    if n == 0 {
        1
    } else {
        256 * pow256((n - 1) as nat)
    }
}

proof fn lemma_pow256_step(n: nat)
    requires
        n < 8,
    ensures
        pow256(n + 1) == pow256(n) * 256,
        pow256(n + 1) <= 0x1_0000_0000_0000_0000,
{
    reveal_with_fuel(pow256, 9);
    assert(pow256(8) == 0x1_0000_0000_0000_0000);
    lemma_pow256_mono(n + 1, 8);
}

proof fn lemma_pow256_mono(a: nat, b: nat)
    requires
        a <= b,
    ensures
        pow256(a) <= pow256(b),
    decreases b - a,
{
    if a < b {
        lemma_pow256_mono(a, (b - 1) as nat);
    }
}

/// The largest payload a frame may announce.
pub const MAX_WS_PAYLOAD: u64 = 1048576;

/// Whether a frame's payload length is accepted.
pub fn ws_length_allowed(length: u64) -> (r: bool)
    ensures
        r == (length <= MAX_WS_PAYLOAD),
{
    length <= MAX_WS_PAYLOAD
}

/// What a received frame means.
#[derive(Debug, Clone, Copy, PartialEq, Eq, Structural)]
pub enum WsFrameKind {
    /// A text message.
    Text,
    /// The peer closed the connection.
    Close,
    /// A ping, answered with a pong carrying the same payload.
    Ping,
    /// Anything else, ignored.
    Other,
}

/// Classifies a frame by its opcode.
pub fn ws_frame_kind(opcode: u8) -> (r: WsFrameKind)
    ensures
        r == if opcode == 1 {
            WsFrameKind::Text
        } else if opcode == 8 {
            WsFrameKind::Close
        } else if opcode == 9 {
            WsFrameKind::Ping
        } else {
            WsFrameKind::Other
        },
{
    if opcode == 1 {
        WsFrameKind::Text
    } else if opcode == 8 {
        WsFrameKind::Close
    } else if opcode == 9 {
        WsFrameKind::Ping
    } else {
        WsFrameKind::Other
    }
}

/// A control frame: final, with the opcode's low bits, and only the low eight
/// bits of the payload length in its seven-bit field.
pub open spec fn control_frame_spec(opcode: u8, payload: Seq<u8>, mask: Option<Seq<u8>>) -> Seq<u8> {
    let first = 0x80u8 | (opcode & 0x0f);
    let len = (payload.len() % 256) as u8;
    match mask {
        Some(m) => seq![first, 0x80u8 | len] + m + masked_spec(payload, m),
        None => seq![first, len] + payload,
    }
}

/// Builds a control frame such as the pong that answers a ping.
pub fn ws_control_frame(opcode: u8, payload: &[u8], mask: Option<[u8; 4]>) -> (r: Vec<u8>)
    ensures
        r@ == control_frame_spec(
            opcode,
            payload@,
            match mask {
                Some(m) => Some(m@),
                None => None,
            },
        ),
{
    let mut frame: Vec<u8> = Vec::new();
    frame.push(0x80 | (opcode & 0x0f));
    let len = (payload.len() % 256) as u8;
    let body = match mask {
        Some(m) => {
            frame.push(0x80 | len);
            frame.push(m[0]);
            frame.push(m[1]);
            frame.push(m[2]);
            frame.push(m[3]);
            apply_mask(payload, &m)
        },
        None => {
            frame.push(len);
            let mut copy: Vec<u8> = Vec::new();
            let mut i: usize = 0;
            while i < payload.len()
                invariant
                    i <= payload@.len(),
                    copy@ == payload@.take(i as int),
                decreases payload@.len() - i,
            {
                copy.push(payload[i]);
                i = i + 1;
            }
            assert(payload@.take(payload@.len() as int) == payload@);
            copy
        },
    };
    let ghost before = frame@;
    let mut i: usize = 0;
    while i < body.len()
        invariant
            i <= body@.len(),
            frame@ == before + body@.take(i as int),
        decreases body@.len() - i,
    {
        frame.push(body[i]);
        i = i + 1;
    }
    assert(body@.take(body@.len() as int) == body@);
    frame
}

/// The content type served for a theme file with this extension.
pub open spec fn content_type_spec(extension: Seq<char>) -> Seq<char> {
    if extension == "html"@ {
        "text/html; charset=utf-8"@
    } else if extension == "js"@ || extension == "mjs"@ {
        "text/javascript; charset=utf-8"@
    } else if extension == "css"@ {
        "text/css; charset=utf-8"@
    } else if extension == "json"@ {
        "application/json; charset=utf-8"@
    } else if extension == "svg"@ {
        "image/svg+xml"@
    } else if extension == "png"@ {
        "image/png"@
    } else if extension == "jpg"@ || extension == "jpeg"@ {
        "image/jpeg"@
    } else if extension == "webp"@ {
        "image/webp"@
    } else if extension == "woff"@ {
        "font/woff"@
    } else if extension == "woff2"@ {
        "font/woff2"@
    } else {
        "application/octet-stream"@
    }
}

/// The content type of a theme file, by its extension (matched exactly, so
/// `HTML` is no `html`).
pub fn content_type(extension: &str) -> (r: &'static str)
    ensures
        r@ == content_type_spec(extension@),
{
    if str_eq(extension, "html") {
        "text/html; charset=utf-8"
    } else if str_eq(extension, "js") || str_eq(extension, "mjs") {
        "text/javascript; charset=utf-8"
    } else if str_eq(extension, "css") {
        "text/css; charset=utf-8"
    } else if str_eq(extension, "json") {
        "application/json; charset=utf-8"
    } else if str_eq(extension, "svg") {
        "image/svg+xml"
    } else if str_eq(extension, "png") {
        "image/png"
    } else if str_eq(extension, "jpg") || str_eq(extension, "jpeg") {
        "image/jpeg"
    } else if str_eq(extension, "webp") {
        "image/webp"
    } else if str_eq(extension, "woff") {
        "font/woff"
    } else if str_eq(extension, "woff2") {
        "font/woff2"
    } else {
        "application/octet-stream"
    }
}

} // verus!
