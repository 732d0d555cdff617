//! Requests: the header map, the request structure, and the wire parser.

use vstd::prelude::*;

use crate::http::method::Method;
use crate::http::parse_error::ParseError;
use crate::text::decode_utf8_bytes;
use crate::text::find_char_upto;
use crate::text::lemma_spec_find;
use crate::text::rskip_ws;
use crate::text::scan_token;
use crate::text::skip_ws;
use crate::text::spec_find;
use crate::text::spec_rskip_ws;
use crate::text::spec_scan_token;
use crate::text::spec_skip_ws;
use crate::text::str_eq;

verus! {

/// The map a sequence of header entries denotes: entries are keyed by name,
/// and a later entry for a name wins over an earlier one.
pub open spec fn map_of(entries: Seq<(String, String)>) -> Map<Seq<char>, Seq<char>>
    decreases entries.len(),
{
    if entries.len() == 0 {
        Map::empty()
    } else {
        map_of(entries.drop_last()).insert(entries.last().0@, entries.last().1@)
    }
}

/// The header fields of a request: names to values, case kept as received,
/// the last entry winning when a name repeats.
#[derive(Debug)]
pub struct Headers {
    entries: Vec<(String, String)>,
}

impl View for Headers {
    type V = Map<Seq<char>, Seq<char>>;

    closed spec fn view(&self) -> Map<Seq<char>, Seq<char>> {
        map_of(self.entries@)
    }
}

impl Headers {
    /// An empty header map.
    pub fn new() -> (h: Headers)
        ensures
            h@ == Map::<Seq<char>, Seq<char>>::empty(),
    {
        Headers { entries: Vec::new() }
    }

    /// Record a header field; a later value for the same name replaces an
    /// earlier one.
    pub fn insert(&mut self, name: String, value: String)
        ensures
            final(self)@ == old(self)@.insert(name@, value@),
    {
        let ghost before = self.entries@;
        let ghost n = name@;
        let ghost v = value@;
        self.entries.push((name, value));
        proof {
            assert(self.entries@.drop_last() =~= before);
            assert(self.entries@.last().0@ == n);
            assert(self.entries@.last().1@ == v);
        }
    }

    /// The value recorded for `name`, if any.
    pub fn get(&self, name: &str) -> (r: Option<&String>)
        ensures
            match r {
                Some(v) => self@.contains_key(name@) && self@[name@] == v@,
                None => !self@.contains_key(name@),
            },
    {
        let ghost k = name@;
        let ghost full = self.entries@;
        let n = self.entries.len();
        let mut i: usize = n;
        proof {
            assert(full.subrange(0, n as int) =~= full);
        }
        while i > 0
            invariant
                i <= n,
                n == full.len(),
                full == self.entries@,
                k == name@,
                map_of(full).contains_key(k) == map_of(full.subrange(0, i as int)).contains_key(
                    k,
                ),
                map_of(full).contains_key(k) ==> map_of(full)[k] == map_of(
                    full.subrange(0, i as int),
                )[k],
            decreases i,
        {
            let ghost prefix = full.subrange(0, i as int);
            proof {
                assert(prefix.drop_last() =~= full.subrange(0, i - 1));
                assert(prefix.last() == full[i - 1]);
                assert(map_of(prefix) == map_of(prefix.drop_last()).insert(
                    prefix.last().0@,
                    prefix.last().1@,
                ));
            }
            let e = &self.entries[i - 1];
            if str_eq(e.0.as_str(), name) {
                proof {
                    assert(prefix.last().0@ == k);
                    assert(map_of(prefix).contains_key(k));
                    assert(map_of(prefix)[k] == full[i - 1].1@);
                }
                return Some(&e.1);
            }
            proof {
                assert(prefix.last().0@ != k);
            }
            i -= 1;
        }
        proof {
            assert(full.subrange(0, 0) =~= Seq::<(String, String)>::empty());
        }
        None
    }
}

/// The mathematical value of a request.
pub ghost struct RequestModel {
    pub method: Method,
    pub path: Seq<char>,
    pub query: Option<Seq<char>>,
    pub headers: Map<Seq<char>, Seq<char>>,
}

/// One parsed request: its verb, its path (always starting with `/` as
/// received), the raw query string if a `?` was present, and its headers.
#[derive(Debug)]
pub struct Request {
    pub path: String,
    pub query: Option<String>,
    pub method: Method,
    pub headers: Headers,
}

impl View for Request {
    type V = RequestModel;

    open spec fn view(&self) -> RequestModel {
        RequestModel {
            method: self.method,
            path: self.path@,
            query: self.query.deep_view(),
            headers: self.headers@,
        }
    }
}

impl Request {
    /// A request assembled from its parts.
    pub fn new(method: Method, path: String, query: Option<String>, headers: Headers) -> (r:
        Request)
        ensures
            r@ == (RequestModel {
                method,
                path: path@,
                query: query.deep_view(),
                headers: headers@,
            }),
    {
        Request { path, query, method, headers }
    }
}

/// Where the line that starts at `p` ends: at the next `'\n'`, or at the end
/// of the text.
pub open spec fn raw_line_end(t: Seq<char>, p: int) -> int {
    let f = spec_find(t, '\n', p, t.len() as int);
    if f == -1 {
        t.len() as int
    } else {
        f
    }
}

/// Where the content of the line that starts at `p` ends: one trailing
/// `'\r'` is dropped when the line was terminated by `'\n'`.
pub open spec fn line_content_end(t: Seq<char>, p: int) -> int {
    let e = raw_line_end(t, p);
    if e < t.len() && e > p && t[e - 1] == '\r' {
        e - 1
    } else {
        e
    }
}

/// Where the line after the one that starts at `p` starts.
pub open spec fn next_line(t: Seq<char>, p: int) -> int {
    let e = raw_line_end(t, p);
    if e == t.len() {
        e
    } else {
        e + 1
    }
}

/// Line positions are ordered: the content end lies between `p` and the end
/// of the text, and the next line starts strictly after `p`.
pub proof fn lemma_line_bounds(t: Seq<char>, p: int)
    requires
        0 <= p <= t.len(),
    ensures
        p <= line_content_end(t, p) <= raw_line_end(t, p) <= t.len(),
        raw_line_end(t, p) <= next_line(t, p) <= t.len(),
        p < t.len() ==> p < next_line(t, p),
{
    lemma_spec_find(t, '\n', p, t.len() as int);
}

/// Whether the characters of `[start, end)` form an accepted protocol
/// token: one that begins with `HTTP/`.
pub open spec fn protocol_ok(t: Seq<char>, start: int, end: int) -> bool {
    end - start >= 5 && t.subrange(start, start + 5) == "HTTP/"@
}

/// The header fields written from position `p` on: one field per line, split
/// at the first `':'`, name and value trimmed, a line without `':'` skipped,
/// stopping at the first empty line or at the end of the text. A later field
/// wins over an earlier one of the same name.
pub open spec fn headers_text(t: Seq<char>, p: int) -> Map<Seq<char>, Seq<char>>
    decreases t.len() - p,
    when 0 <= p <= t.len()
{
    if p >= t.len() {
        Map::empty()
    } else {
        let lend = line_content_end(t, p);
        if lend == p {
            Map::empty()
        } else {
            proof {
                lemma_line_bounds(t, p);
            }
            let rest = headers_text(t, next_line(t, p));
            let c = spec_find(t, ':', p, lend);
            if c == -1 {
                rest
            } else {
                let n_start = spec_skip_ws(t, p, c);
                let n_end = spec_rskip_ws(t, n_start, c);
                let v_start = spec_skip_ws(t, c + 1, lend);
                let v_end = spec_rskip_ws(t, v_start, lend);
                Map::empty().insert(
                    t.subrange(n_start, n_end),
                    t.subrange(v_start, v_end),
                ).union_prefer_right(rest)
            }
        }
    }
}

/// The request that a text denotes, or why it denotes none. The first line
/// is the request line: a method token, a URI token and a protocol token,
/// separated by whitespace. The absence of any of the three fails before
/// the method token is validated and before the protocol token is checked.
/// The URI splits at its first `'?'` into the path and the query; the
/// remaining lines up to the first empty line are header fields.
pub open spec fn parse_text(t: Seq<char>) -> Result<RequestModel, ParseError> {
    if t.len() == 0 {
        Err(ParseError::InvalidRequest)
    } else {
        let lend = line_content_end(t, 0);
        let m_start = spec_skip_ws(t, 0, lend);
        let m_end = spec_scan_token(t, m_start, lend);
        let u_start = spec_skip_ws(t, m_end, lend);
        let u_end = spec_scan_token(t, u_start, lend);
        let p_start = spec_skip_ws(t, u_end, lend);
        let p_end = spec_scan_token(t, p_start, lend);
        if m_start == lend || u_start == lend || p_start == lend {
            Err(ParseError::InvalidRequest)
        } else {
            match Method::from_token(t.subrange(m_start, m_end)) {
                Err(_) => Err(ParseError::InvalidMethod),
                Ok(method) => {
                    if !protocol_ok(t, p_start, p_end) {
                        Err(ParseError::InvalidProtocol)
                    } else {
                        let q = spec_find(t, '?', u_start, u_end);
                        Ok(
                            RequestModel {
                                method,
                                path: if q == -1 {
                                    t.subrange(u_start, u_end)
                                } else {
                                    t.subrange(u_start, q)
                                },
                                query: if q == -1 {
                                    None
                                } else {
                                    Some(t.subrange(q + 1, u_end))
                                },
                                headers: headers_text(t, next_line(t, 0)),
                            },
                        )
                    }
                }
            }
        }
    }
}

/// The request that a byte buffer denotes: the bytes must be UTF-8, and the
/// text they decode to must parse.
pub open spec fn parse_bytes(bytes: Seq<u8>) -> Result<RequestModel, ParseError> {
    if !vstd::utf8::valid_utf8(bytes) {
        Err(ParseError::InvalidEncoding)
    } else {
        parse_text(vstd::utf8::decode_utf8(bytes))
    }
}

impl Request {
    /// Parse one request from a byte buffer.
    pub fn try_from(buffer: &[u8]) -> (r: Result<Request, ParseError>)
        ensures
            match r {
                Ok(req) => parse_bytes(buffer@) == Ok::<RequestModel, ParseError>(req@),
                Err(e) => parse_bytes(buffer@) == Err::<RequestModel, ParseError>(e),
            },
    {
        let text = match decode_utf8_bytes(buffer) {
            Some(s) => s,
            None => {
                return Err(ParseError::InvalidEncoding);
            },
        };
        let s = text.as_str();
        let ghost t = s@;
        let tlen = s.unicode_len();
        if tlen == 0 {
            return Err(ParseError::InvalidRequest);
        }
        proof {
            lemma_line_bounds(t, 0);
        }
        let raw_end: usize = match find_char_upto(s, '\n', 0, tlen) {
            Some(k) => k,
            None => tlen,
        };
        proof {
            assert(raw_end == raw_line_end(t, 0));
        }
        let lend: usize = if raw_end < tlen && raw_end > 0 && s.get_char(raw_end - 1) == '\r' {
            raw_end - 1
        } else {
            raw_end
        };
        proof {
            assert(lend == line_content_end(t, 0));
        }
        let m_start = skip_ws(s, 0, lend);
        let m_end = scan_token(s, m_start, lend);
        let u_start = skip_ws(s, m_end, lend);
        let u_end = scan_token(s, u_start, lend);
        let p_start = skip_ws(s, u_end, lend);
        let p_end = scan_token(s, p_start, lend);
        if m_start == lend || u_start == lend || p_start == lend {
            return Err(ParseError::InvalidRequest);
        }
        let method = match Method::from_str(s.substring_char(m_start, m_end)) {
            Ok(m) => m,
            Err(_) => {
                return Err(ParseError::InvalidMethod);
            },
        };
        let proto_ok: bool = if p_end - p_start >= 5 {
            let head = s.substring_char(p_start, p_start + 5);
            str_eq(head, "HTTP/")
        } else {
            false
        };
        proof {
            assert(proto_ok == protocol_ok(t, p_start as int, p_end as int));
        }
        if !proto_ok {
            return Err(ParseError::InvalidProtocol);
        }
        let (path, query) = match find_char_upto(s, '?', u_start, u_end) {
            Some(qi) => (
                s.substring_char(u_start, qi).to_owned(),
                Some(s.substring_char(qi + 1, u_end).to_owned()),
            ),
            None => (s.substring_char(u_start, u_end).to_owned(), None),
        };
        let ghost expected = parse_text(t);
        let ghost qspec = query.deep_view();
        let mut p: usize = if raw_end == tlen {
            tlen
        } else {
            raw_end + 1
        };
        let ghost hdr_start = p as int;
        proof {
            assert(hdr_start == next_line(t, 0));
            assert(expected matches Ok(m) && m.method == method && m.path == path@ && m.query
                == qspec && m.headers == headers_text(t, hdr_start));
        }
        let mut headers = Headers::new();
        let mut done = false;
        while !done && p < tlen
            invariant
                0 <= hdr_start <= p <= tlen,
                tlen == t.len(),
                t == s@,
                headers_text(t, hdr_start) == headers@.union_prefer_right(
                    headers_text(t, p as int),
                ),
                done ==> headers_text(t, hdr_start) == headers@,
            decreases tlen - p, (if done { 0int } else { 1int }),
        {
            proof {
                lemma_line_bounds(t, p as int);
            }
            let r_end: usize = match find_char_upto(s, '\n', p, tlen) {
                Some(k) => k,
                None => tlen,
            };
            let l_end: usize = if r_end < tlen && r_end > p && s.get_char(r_end - 1) == '\r' {
                r_end - 1
            } else {
                r_end
            };
            proof {
                assert(r_end == raw_line_end(t, p as int));
                assert(l_end == line_content_end(t, p as int));
            }
            if l_end == p {
                done = true;
                proof {
                    assert(headers_text(t, p as int) =~= Map::<Seq<char>, Seq<char>>::empty());
                    assert(headers_text(t, hdr_start) =~= headers@);
                }
            } else {
                let ghost p_prev = p as int;
                let ghost rest = headers_text(t, next_line(t, p_prev));
                match find_char_upto(s, ':', p, l_end) {
                    Some(c) => {
                        let n_start = skip_ws(s, p, c);
                        let n_end = rskip_ws(s, n_start, c);
                        let v_start = skip_ws(s, c + 1, l_end);
                        let v_end = rskip_ws(s, v_start, l_end);
                        let nm = s.substring_char(n_start, n_end).to_owned();
                        let vl = s.substring_char(v_start, v_end).to_owned();
                        let ghost acc_before = headers@;
                        headers.insert(nm, vl);
                        proof {
                            assert(headers_text(t, p_prev) == Map::empty().insert(
                                nm@,
                                vl@,
                            ).union_prefer_right(rest));
                            assert(acc_before.union_prefer_right(headers_text(t, p_prev))
                                =~= headers@.union_prefer_right(rest));
                        }
                    },
                    None => {
                        proof {
                            assert(headers_text(t, p_prev) == rest);
                        }
                    },
                }
                p = if r_end == tlen {
                    tlen
                } else {
                    r_end + 1
                };
                proof {
                    assert(p as int == next_line(t, p_prev));
                }
            }
        }
        proof {
            if !done {
                assert(headers_text(t, p as int) =~= Map::<Seq<char>, Seq<char>>::empty());
                assert(headers_text(t, hdr_start) =~= headers@);
            }
        }
        Ok(Request { path, query, method, headers })
    }
}

} // verus!
