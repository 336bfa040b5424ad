//! A small HTTP abstraction: responses, header lookup, and the parsing of
//! what `curl --dump-header -` prints.
use crate::errors::ErrorSmart;
use crate::text::{str_eq, string_from_utf8};
use vstd::prelude::*;
use vstd::utf8::*;

verus! {

/// One response header.
#[derive(Debug, Clone, PartialEq, Eq)]
pub struct HttpHeader {
    pub name: String,
    pub value: String,
}

/// The body and headers of a response to a GET request.
#[derive(Debug, Clone, PartialEq, Eq)]
pub struct HttpGetResponse {
    pub body: String,
    pub headers: Vec<HttpHeader>,
}

/// The mathematical value of a header: its name and its value.
pub open spec fn header_view(h: HttpHeader) -> (Seq<char>, Seq<char>) {
    (h.name@, h.value@)
}

/// The headers of a response, as name and value pairs.
pub open spec fn headers_view(hs: Seq<HttpHeader>) -> Seq<(Seq<char>, Seq<char>)> {
    hs.map_values(|h: HttpHeader| header_view(h))
}

/// A trivial abstraction layer for making HTTP requests.
///
/// `calls` is the history of the requests made through this value: each URL
/// asked for, with the answer given, oldest first. An implementation meets
/// `get`'s contract only by defining it, as the ones in this crate do. The
/// default, an always empty history, exists so that implementations outside
/// the verifier (the program's curl client) compile; they do not meet that
/// contract and nothing holds them to it.
pub trait Http {
    closed spec fn calls(&self) -> Seq<(Seq<char>, Result<HttpGetResponse, ErrorSmart>)> {
        Seq::empty()
    }

    /// Performs an HTTP GET request on the given URL.
    fn get(&mut self, url: &str) -> (r: Result<HttpGetResponse, ErrorSmart>)
        ensures
            final(self).calls() == old(self).calls().push((url@, r)),
    ;
}

impl<H: Http + ?Sized> Http for Box<H> {
    open spec fn calls(&self) -> Seq<(Seq<char>, Result<HttpGetResponse, ErrorSmart>)> {
        (**self).calls()
    }

    /// The request of the boxed `Http`.
    fn get(&mut self, url: &str) -> (r: Result<HttpGetResponse, ErrorSmart>) {
        (**self).get(url)
    }
}

/// The index of the first header named `name`, at `from` or later.
pub open spec fn first_header_from(hs: Seq<(Seq<char>, Seq<char>)>, name: Seq<char>, from: int) -> Option<int>
    decreases hs.len() - from,
{
    if from < 0 || from >= hs.len() {
        None
    } else if hs[from].0 == name {
        Some(from)
    } else {
        first_header_from(hs, name, from + 1)
    }
}

/// The value of the first header named `header_name`, if there is one.
pub fn get_header_value<'a>(headers: &'a Vec<HttpHeader>, header_name: &str) -> (r: Option<&'a str>)
    ensures
        match first_header_from(headers_view(headers@), header_name@, 0) {
            None => r is None,
            Some(i) => r matches Some(v) && v@ == headers@[i].value@,
        },
{
    let n = headers.len();
    let mut i: usize = 0;
    while i < n
        invariant
            n == headers@.len(),
            i <= n,
            first_header_from(headers_view(headers@), header_name@, 0)
                == first_header_from(headers_view(headers@), header_name@, i as int),
        decreases n - i,
    {
        let header = &headers[i];
        if str_eq(header.name.as_str(), header_name) {
            return Some(header.value.as_str());
        }
        i = i + 1;
    }
    None
}

/// Why the output of curl could not be read as a response.
#[derive(Debug, Clone, Copy, PartialEq, Eq)]
pub enum CurlParseError {
    /// The output is not valid UTF-8.
    NotUtf8,
    /// No empty line (`\r\n\r\n`) ends the headers.
    MissingHeaderEnd,
    /// A header line has no `:`, or nothing can follow the `: ` after it.
    MalformedHeader,
}

pub open spec fn is_header_end_at(s: Seq<u8>, i: int) -> bool {
    &&& 0 <= i
    &&& i + 4 <= s.len()
    &&& s[i] == 13u8
    &&& s[i + 1] == 10u8
    &&& s[i + 2] == 13u8
    &&& s[i + 3] == 10u8
}

/// The first place at `from` or later where `\r\n\r\n` starts.
pub open spec fn find_header_end_from(s: Seq<u8>, from: int) -> Option<int>
    decreases s.len() - from,
{
    if from < 0 || from + 4 > s.len() {
        None
    } else if is_header_end_at(s, from) {
        Some(from)
    } else {
        find_header_end_from(s, from + 1)
    }
}

/// The first index of `b` in `s` at `from` or later.
pub open spec fn find_byte_from(s: Seq<u8>, b: u8, from: int) -> Option<int>
    decreases s.len() - from,
{
    if from < 0 || from >= s.len() {
        None
    } else if s[from] == b {
        Some(from)
    } else {
        find_byte_from(s, b, from + 1)
    }
}

proof fn lemma_find_byte_bounds(s: Seq<u8>, b: u8, from: int)
    ensures
        find_byte_from(s, b, from) matches Some(k) ==> from <= k < s.len() && s[k] == b,
    decreases s.len() - from,
{
    if from < 0 || from >= s.len() {
    } else if s[from] == b {
    } else {
        lemma_find_byte_bounds(s, b, from + 1);
    }
}

proof fn lemma_find_header_end_bounds(s: Seq<u8>, from: int)
    ensures
        find_header_end_from(s, from) matches Some(k) ==> from <= k && k + 4 <= s.len() && is_header_end_at(s, k),
    decreases s.len() - from,
{
    if from < 0 || from + 4 > s.len() {
    } else if is_header_end_at(s, from) {
    } else {
        lemma_find_header_end_bounds(s, from + 1);
    }
}

/// A line ended by `\n` loses a trailing `\r`.
pub open spec fn strip_cr(line: Seq<u8>) -> Seq<u8> {
    if line.len() > 0 && line.last() == 13u8 {
        line.drop_last()
    } else {
        line
    }
}

/// The lines of `s` from position `i` on, where the current line started at
/// `start`: lines end at `\n` (a `\r` before it is dropped); a last line
/// without `\n` is kept as it is; after a final `\n` no empty line follows.
pub open spec fn lines_from(s: Seq<u8>, i: int, start: int) -> Seq<Seq<u8>>
    decreases s.len() - i,
{
    if i >= s.len() {
        if 0 <= start < s.len() {
            seq![s.subrange(start, s.len() as int)]
        } else {
            seq![]
        }
    } else if i >= 0 && s[i] == 10u8 {
        seq![strip_cr(s.subrange(start, i))] + lines_from(s, i + 1, i + 1)
    } else {
        lines_from(s, i + 1, start)
    }
}

/// The lines of `s`.
pub open spec fn lines_of(s: Seq<u8>) -> Seq<Seq<u8>> {
    lines_from(s, 0, 0)
}

/// A header line `Name: value` split into the bytes of its name and value:
/// the name runs up to the first `:`, the value starts two bytes after it.
pub open spec fn split_header_line(line: Seq<u8>) -> Option<(Seq<u8>, Seq<u8>)> {
    match find_byte_from(line, 58u8, 0) {
        None => None,
        Some(c) => if c + 2 > line.len() {
            None
        } else {
            Some((line.subrange(0, c), line.subrange(c + 2, line.len() as int)))
        },
    }
}

/// A header line decoded to a name and a value, when it splits and both parts
/// are valid UTF-8.
pub open spec fn parse_header_line(line: Seq<u8>) -> Option<(Seq<char>, Seq<char>)> {
    match split_header_line(line) {
        None => None,
        Some((n, v)) => if valid_utf8(n) && valid_utf8(v) {
            Some((decode_utf8(n), decode_utf8(v)))
        } else {
            None
        },
    }
}

/// All header lines decoded, or `None` if one of them does not parse.
pub open spec fn parse_header_lines(ls: Seq<Seq<u8>>) -> Option<Seq<(Seq<char>, Seq<char>)>>
    decreases ls.len(),
{
    if ls.len() == 0 {
        Some(seq![])
    } else {
        match (parse_header_line(ls[0]), parse_header_lines(ls.drop_first())) {
            (Some(h), Some(rest)) => Some(seq![h] + rest),
            _ => None,
        }
    }
}

/// The lines after the first one (which is the status line, e.g. `HTTP/2 200`).
pub open spec fn after_status_line(ls: Seq<Seq<u8>>) -> Seq<Seq<u8>> {
    if ls.len() == 0 {
        ls
    } else {
        ls.drop_first()
    }
}

/// What the output of `curl --silent --dump-header - URL` says: the body
/// after the first empty line, and the headers before it (status line
/// skipped).
pub open spec fn curl_response_spec(out: Seq<u8>) -> Result<(Seq<char>, Seq<(Seq<char>, Seq<char>)>), CurlParseError> {
    if !valid_utf8(out) {
        Err(CurlParseError::NotUtf8)
    } else {
        match find_header_end_from(out, 0) {
            None => Err(CurlParseError::MissingHeaderEnd),
            Some(k) => {
                let head = out.subrange(0, k);
                let body = out.subrange(k + 4, out.len() as int);
                match parse_header_lines(after_status_line(lines_of(head))) {
                    None => Err(CurlParseError::MalformedHeader),
                    Some(hs) => if valid_utf8(body) {
                        Ok((decode_utf8(body), hs))
                    } else {
                        Err(CurlParseError::NotUtf8)
                    },
                }
            },
        }
    }
}

/// The view of a parsed response.
pub open spec fn response_view(r: HttpGetResponse) -> (Seq<char>, Seq<(Seq<char>, Seq<char>)>) {
    (r.body@, headers_view(r.headers@))
}

fn find_header_end(s: &[u8]) -> (r: Option<usize>)
    ensures
        match find_header_end_from(s@, 0) {
            None => r is None,
            Some(k) => r == Some(k as usize),
        },
{
    let n = s.len();
    let mut i: usize = 0;
    if n < 4 {
        return None;
    }
    while i <= n - 4
        invariant
            n == s@.len(),
            n >= 4,
            find_header_end_from(s@, 0) == find_header_end_from(s@, i as int),
        decreases n - i,
    {
        if s[i] == 13u8 && s[i + 1] == 10u8 && s[i + 2] == 13u8 && s[i + 3] == 10u8 {
            return Some(i);
        }
        i = i + 1;
    }
    None
}

fn find_byte(s: &[u8], b: u8) -> (r: Option<usize>)
    ensures
        match find_byte_from(s@, b, 0) {
            None => r is None,
            Some(k) => r == Some(k as usize),
        },
{
    let n = s.len();
    let mut i: usize = 0;
    while i < n
        invariant
            n == s@.len(),
            i <= n,
            find_byte_from(s@, b, 0) == find_byte_from(s@, b, i as int),
        decreases n - i,
    {
        if s[i] == b {
            return Some(i);
        }
        i = i + 1;
    }
    None
}

/// Splits `s` into its lines.
fn split_lines(s: &[u8]) -> (r: Vec<&[u8]>)
    ensures
        r@.map_values(|l: &[u8]| l@) == lines_of(s@),
{
    let n = s.len();
    let mut out: Vec<&[u8]> = Vec::new();
    let mut start: usize = 0;
    let mut i: usize = 0;
    while i < n
        invariant
            n == s@.len(),
            start <= i <= n,
            out@.map_values(|l: &[u8]| l@) + lines_from(s@, i as int, start as int) == lines_of(s@),
        decreases n - i,
    {
        if s[i] == 10u8 {
            let line = &s[start..i];
            let line = if line.len() > 0 && line[line.len() - 1] == 13u8 {
                &line[0..line.len() - 1]
            } else {
                line
            };
            let ghost before = out@.map_values(|l: &[u8]| l@);
            assert(line@ == strip_cr(s@.subrange(start as int, i as int)));
            out.push(line);
            assert(out@.map_values(|l: &[u8]| l@) =~= before.push(line@));
            assert(before + lines_from(s@, i as int, start as int) =~= before.push(line@)
                + lines_from(s@, i + 1, i + 1));
            start = i + 1;
        }
        i = i + 1;
    }
    if start < n {
        let ghost before = out@.map_values(|l: &[u8]| l@);
        let line = &s[start..n];
        out.push(line);
        assert(out@.map_values(|l: &[u8]| l@) =~= before.push(line@));
        assert(before + lines_from(s@, n as int, start as int) =~= before.push(line@));
    } else {
        assert(out@.map_values(|l: &[u8]| l@) + lines_from(s@, n as int, start as int)
            =~= out@.map_values(|l: &[u8]| l@));
    }
    out
}

/// Parses one header line `Name: value`.
fn parse_header(line: &[u8]) -> (r: Option<HttpHeader>)
    ensures
        match parse_header_line(line@) {
            None => r is None,
            Some(h) => r matches Some(header) && header_view(header) == h,
        },
{
    let colon = match find_byte(line, 58u8) {
        None => return None,
        Some(c) => c,
    };
    proof {
        lemma_find_byte_bounds(line@, 58u8, 0);
    }
    if line.len() - colon < 2 {
        return None;
    }
    let name = match string_from_utf8(&line[0..colon]) {
        None => return None,
        Some(n) => n,
    };
    let value = match string_from_utf8(&line[colon + 2..line.len()]) {
        None => return None,
        Some(v) => v,
    };
    Some(HttpHeader { name, value })
}

/// Reads the output of `curl --silent --dump-header - URL`: the header block
/// ends at the first `\r\n\r\n` and the body follows it; each header line
/// after the status line is `Name: value`.
pub fn parse_curl_response(out: &[u8]) -> (r: Result<HttpGetResponse, CurlParseError>)
    ensures
        match curl_response_spec(out@) {
            Ok(v) => r matches Ok(resp) && response_view(resp) == v,
            Err(e) => r == Err::<HttpGetResponse, CurlParseError>(e),
        },
{
    if string_from_utf8(out).is_none() {
        return Err(CurlParseError::NotUtf8);
    }
    let k = match find_header_end(out) {
        None => return Err(CurlParseError::MissingHeaderEnd),
        Some(k) => k,
    };
    let total = out.len();
    proof {
        lemma_find_header_end_bounds(out@, 0);
        assert(k + 4 <= total);
    }
    let head = &out[0..k];
    let body_bytes = &out[k + 4..total];
    let lines = split_lines(head);
    let ghost ls = after_status_line(lines_of(head@));
    let mut headers: Vec<HttpHeader> = Vec::new();
    let n = lines.len();
    let mut j: usize = if n == 0 { 0 } else { 1 };
    proof {
        assert(ls =~= lines_of(head@).skip(j as int));
        assert(lines@.map_values(|l: &[u8]| l@).len() == n);
    }
    while j < n
        invariant
            n == lines@.len(),
            valid_utf8(out@),
            find_header_end_from(out@, 0) == Some(k as int),
            head@ == out@.subrange(0, k as int),
            ls == after_status_line(lines_of(head@)),
            lines@.map_values(|l: &[u8]| l@) == lines_of(head@),
            1 <= j <= n || (j == 0 && n == 0),
            parse_header_lines(ls) == match parse_header_lines(lines_of(head@).skip(j as int)) {
                Some(rest) => Some(headers_view(headers@) + rest),
                None => None::<Seq<(Seq<char>, Seq<char>)>>,
            },
        decreases n - j,
    {
        let ghost rest = lines_of(head@).skip(j as int);
        assert(rest[0] == lines@[j as int]@);
        assert(rest.drop_first() =~= lines_of(head@).skip(j + 1));
        match parse_header(lines[j]) {
            None => {
                assert(parse_header_lines(rest) is None);
                return Err(CurlParseError::MalformedHeader);
            },
            Some(h) => {
                let ghost before = headers_view(headers@);
                headers.push(h);
                assert(headers_view(headers@) =~= before.push(header_view(h)));
                proof {
                    match parse_header_lines(rest.drop_first()) {
                        Some(r2) => {
                            assert(before + (seq![header_view(h)] + r2) =~= before.push(header_view(h)) + r2);
                        },
                        None => {},
                    }
                }
            },
        }
        j = j + 1;
    }
    proof {
        assert(lines_of(head@).skip(j as int) =~= Seq::<Seq<u8>>::empty());
        assert(headers_view(headers@) + Seq::<(Seq<char>, Seq<char>)>::empty() =~= headers_view(headers@));
    }
    let body = match string_from_utf8(body_bytes) {
        None => return Err(CurlParseError::NotUtf8),
        Some(b) => b,
    };
    Ok(HttpGetResponse { body, headers })
}

/// An HTTP client that runs the `curl` program.
///
/// Running the program is done by the caller; this type knows the arguments
/// to pass and how to read what curl prints.
#[derive(Debug)]
pub struct Curl {
    user_agent: String,
}

/// The `User-Agent` header line that curl is asked to send.
pub open spec fn user_agent_arg(agent: Seq<char>) -> Seq<char> {
    "User-Agent: "@ + agent
}

impl Curl {
    pub fn new(user_agent: &str) -> (r: Self)
        ensures
            r.user_agent_view() == user_agent@,
    {
        Curl { user_agent: String::from_str(user_agent) }
    }

    pub closed spec fn user_agent_view(&self) -> Seq<char> {
        self.user_agent@
    }

    /// The arguments, after the program name `curl`, that fetch `url` with
    /// the headers dumped before the body.
    pub fn command_args(&self, url: &str) -> (r: Vec<String>)
        ensures
            r@.map_values(|a: String| a@) == seq![
                "--silent"@,
                "--dump-header"@,
                "-"@,
                "--header"@,
                user_agent_arg(self.user_agent_view()),
                url@,
            ],
    {
        let mut args: Vec<String> = Vec::new();
        args.push(String::from_str("--silent"));
        args.push(String::from_str("--dump-header"));
        args.push(String::from_str("-"));
        args.push(String::from_str("--header"));
        let agent = String::from_str("User-Agent: ").concat(self.user_agent.as_str());
        args.push(agent);
        args.push(String::from_str(url));
        assert(args@.map_values(|a: String| a@) =~= seq![
            "--silent"@,
            "--dump-header"@,
            "-"@,
            "--header"@,
            user_agent_arg(self.user_agent_view()),
            url@,
        ]);
        args
    }
}

/// Where the content of the line that starts at `a` and whose newline (or
/// the end of `s`) is at `b` ends: a `\r` before the newline is not part of
/// it.
pub open spec fn line_content_end(s: Seq<u8>, a: int, b: int) -> int {
    if b < s.len() && b > a && s[b - 1] == 13u8 {
        b - 1
    } else {
        b
    }
}

/// `line` is the content of a whole line of `s`: it starts at `a`, at the
/// start of `s` or just after a `\n`, and runs to the next `\n` (at `b`) or
/// to the end of `s`, without a `\r` that ends it.
pub open spec fn is_line_at(s: Seq<u8>, a: int, b: int, line: Seq<u8>) -> bool {
    &&& 0 <= a <= b <= s.len()
    &&& (a == 0 || s[a - 1] == 10u8)
    &&& forall|j: int| a <= j < b ==> s[j] != 10u8
    &&& (b == s.len() || s[b] == 10u8)
    &&& line == s.subrange(a, line_content_end(s, a, b))
}

/// `line` is the content of a line of `s` that starts at `lo` or later
/// (strictly later when `after`).
pub open spec fn line_placed(s: Seq<u8>, line: Seq<u8>, lo: int, after: bool) -> bool {
    exists|a: int, b: int| #[trigger] is_line_at(s, a, b, line) && a >= lo && (after ==> a > lo)
}

proof fn lemma_lines_from_are_lines(s: Seq<u8>, i: int, start: int)
    requires
        0 <= start <= i <= s.len(),
        start == 0 || s[start - 1] == 10u8,
        forall|j: int| start <= j < i ==> s[j] != 10u8,
    ensures
        forall|k: int|
            0 <= k < lines_from(s, i, start).len() ==> line_placed(
                s,
                #[trigger] lines_from(s, i, start)[k],
                start,
                k > 0,
            ),
    decreases s.len() - i,
{
    let ls = lines_from(s, i, start);
    if i >= s.len() {
        if start < s.len() {
            assert(ls =~= seq![s.subrange(start, s.len() as int)]);
            assert(s.subrange(start, s.len() as int) =~= s.subrange(start, line_content_end(s, start, s.len() as int)));
            assert(is_line_at(s, start, s.len() as int, ls[0]));
            assert(line_placed(s, ls[0], start, false));
        } else {
            assert(ls.len() == 0);
        }
    } else if s[i] == 10u8 {
        lemma_lines_from_are_lines(s, i + 1, i + 1);
        let rest = lines_from(s, i + 1, i + 1);
        let first = strip_cr(s.subrange(start, i));
        assert(ls == seq![first] + rest);
        assert forall|k: int| 0 <= k < ls.len() implies line_placed(s, #[trigger] ls[k], start, k > 0) by {
            if k == 0 {
                assert(first =~= s.subrange(start, line_content_end(s, start, i)));
                assert(is_line_at(s, start, i, ls[0]));
            } else {
                assert(ls[k] == rest[k - 1]);
                assert(line_placed(s, rest[k - 1], i + 1, k - 1 > 0));
                let (a, b) = choose|a: int, b: int| #[trigger] is_line_at(s, a, b, rest[k - 1]) && a >= i + 1 && (k - 1 > 0 ==> a > i + 1);
                assert(is_line_at(s, a, b, ls[k]) && a >= start && a > start);
            }
        }
    } else {
        lemma_lines_from_are_lines(s, i + 1, start);
        assert(ls == lines_from(s, i + 1, start));
    }
}

proof fn lemma_find_byte_first(s: Seq<u8>, b: u8, from: int)
    ensures
        find_byte_from(s, b, from) matches Some(k) ==> from <= k < s.len() && s[k] == b && forall|j: int|
            from <= j < k ==> s[j] != b,
    decreases s.len() - from,
{
    if from < 0 || from >= s.len() {
    } else if s[from] == b {
    } else {
        lemma_find_byte_first(s, b, from + 1);
    }
}

proof fn lemma_find_header_end_first(s: Seq<u8>, from: int)
    ensures
        find_header_end_from(s, from) matches Some(k) ==> from <= k && is_header_end_at(s, k) && forall|j: int|
            from <= j < k ==> !is_header_end_at(s, j),
    decreases s.len() - from,
{
    if from < 0 || from + 4 > s.len() {
    } else if is_header_end_at(s, from) {
    } else {
        lemma_find_header_end_first(s, from + 1);
    }
}

proof fn lemma_header_lines_each(ls: Seq<Seq<u8>>)
    ensures
        parse_header_lines(ls) matches Some(hs) ==> hs.len() == ls.len() && forall|i: int|
            0 <= i < ls.len() ==> parse_header_line(#[trigger] ls[i]) == Some(hs[i]),
    decreases ls.len(),
{
    if ls.len() > 0 {
        lemma_header_lines_each(ls.drop_first());
        if let Some(hs) = parse_header_lines(ls) {
            let rest = parse_header_lines(ls.drop_first()).unwrap();
            assert forall|i: int| 0 <= i < ls.len() implies parse_header_line(#[trigger] ls[i]) == Some(hs[i]) by {
                if i > 0 {
                    assert(ls[i] == ls.drop_first()[i - 1]);
                }
            }
        }
    }
}

/// The header `(name, value)` is read from a line of `s` that is not its
/// first line: the name is the decoded text from the start of the line to
/// its first `:`, and the value is the decoded text from two bytes after
/// that `:` to the end of the line's content.
pub open spec fn header_from_line(s: Seq<u8>, name: Seq<char>, value: Seq<char>) -> bool {
    exists|a: int, b: int, c: int| #[trigger] header_split_at(s, a, b, c, name, value)
}

/// The line of `s` that starts at `a` (not the first line) and ends at `b`
/// has its first `:` at `c`; `name` is the decoded text before it, `value`
/// the decoded text from two bytes after it to the end of the line.
pub open spec fn header_split_at(s: Seq<u8>, a: int, b: int, c: int, name: Seq<char>, value: Seq<char>) -> bool {
    let e = line_content_end(s, a, b);
    &&& is_line_at(s, a, b, s.subrange(a, e))
    &&& a > 0
    &&& a <= c && c + 2 <= e
    &&& s[c] == 58u8
    &&& (forall|j: int| a <= j < c ==> s[j] != 58u8)
    &&& name == decode_utf8(s.subrange(a, c))
    &&& value == decode_utf8(s.subrange(c + 2, e))
}

/// What `parse_curl_response` reads, stated on the bytes of curl's output:
/// the header block ends at the first `\r\n\r\n`; the body is the decoded
/// text after it; and each header is read from a line of the block after the
/// status line, its name running to the line's first `:` and its value from
/// two bytes after that `:` to the end of the line.
pub proof fn lemma_curl_response_from_bytes(out: Seq<u8>, body: Seq<char>, hs: Seq<(Seq<char>, Seq<char>)>)
    requires
        curl_response_spec(out) == Ok::<(Seq<char>, Seq<(Seq<char>, Seq<char>)>), CurlParseError>((body, hs)),
    ensures
        exists|k: int|
            {
                &&& 0 <= k && k + 4 <= out.len()
                &&& is_header_end_at(out, k)
                &&& (forall|j: int| 0 <= j < k ==> !is_header_end_at(out, j))
                &&& body == decode_utf8(out.subrange(k + 4, out.len() as int))
                &&& forall|i: int|
                    0 <= i < hs.len() ==> header_from_line(out.subrange(0, k), #[trigger] hs[i].0, hs[i].1)
            },
{
    lemma_find_header_end_first(out, 0);
    let k = find_header_end_from(out, 0).unwrap();
    let head = out.subrange(0, k);
    let all = lines_of(head);
    let ls = after_status_line(all);
    lemma_header_lines_each(ls);
    lemma_lines_from_are_lines(head, 0, 0);
    assert forall|i: int| 0 <= i < hs.len() implies header_from_line(head, #[trigger] hs[i].0, hs[i].1) by {
        assert(all.len() > 0);
        assert(ls[i] == all[i + 1]);
        let line = all[i + 1];
        assert(line_placed(head, line, 0, i + 1 > 0));
        let (a, b) = choose|a: int, b: int| #[trigger] is_line_at(head, a, b, line) && a >= 0 && (i + 1 > 0 ==> a > 0);
        let e = line_content_end(head, a, b);
        lemma_find_byte_first(line, 58u8, 0);
        let cl = find_byte_from(line, 58u8, 0).unwrap();
        let c = a + cl;
        assert(line.subrange(0, cl) =~= head.subrange(a, c));
        assert(line.subrange(cl + 2, line.len() as int) =~= head.subrange(c + 2, e));
        assert forall|j: int| a <= j < c implies head[j] != 58u8 by {
            assert(head[j] == line[j - a]);
        }
        assert(head[c] == line[cl]);
        assert(header_split_at(head, a, b, c, hs[i].0, hs[i].1));
    }
}

} // verus!
