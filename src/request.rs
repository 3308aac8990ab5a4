//! The request side of the message model, and the parser that builds a
//! request from raw text.
use vstd::prelude::*;

use crate::headers::{insert_entry, HeaderList, HeaderMap};
use crate::text::{
    chars_of, contains, find, find_char, has_request_mark, request_mark, same_text, trim,
    trim_span, word, word_or_empty, words_of,
};

verus! {

/// The request method. A token other than `GET` or `POST` gives `Unintialized`.
#[derive(Debug, Clone, Copy, PartialEq, Eq, Structural)]
pub enum Method {
    Get,
    Post,
    Unintialized,
}

/// The method that token `t` names.
pub open spec fn method_of(t: Seq<char>) -> Method {
    if t == "GET"@ {
        Method::Get
    } else if t == "POST"@ {
        Method::Post
    } else {
        Method::Unintialized
    }
}

impl<'a> From<&'a str> for Method {
    fn from(s: &'a str) -> Method {
        if same_text(s, "GET") {
            Method::Get
        } else if same_text(s, "POST") {
            Method::Post
        } else {
            Method::Unintialized
        }
    }
}

impl<'a> vstd::std_specs::convert::FromSpecImpl<&'a str> for Method {
    open spec fn obeys_from_spec() -> bool {
        true
    }

    open spec fn from_spec(v: &'a str) -> Method {
        method_of(v@)
    }
}

/// The protocol version. Only the exact token `HTTP/1.1` gives `V1_1`.
#[derive(Debug, Clone, Copy, PartialEq, Eq, Structural)]
pub enum Version {
    V1_1,
    V2_0,
    Unintialized,
}

/// The version that token `t` names.
pub open spec fn version_of(t: Seq<char>) -> Version {
    if t == "HTTP/1.1"@ {
        Version::V1_1
    } else {
        Version::Unintialized
    }
}

impl<'a> From<&'a str> for Version {
    fn from(s: &'a str) -> Version {
        if same_text(s, "HTTP/1.1") {
            Version::V1_1
        } else {
            Version::Unintialized
        }
    }
}

impl<'a> vstd::std_specs::convert::FromSpecImpl<&'a str> for Version {
    open spec fn obeys_from_spec() -> bool {
        true
    }

    open spec fn from_spec(v: &'a str) -> Version {
        version_of(v@)
    }
}

/// The requested resource: a path, kept as written.
#[derive(Debug, Clone, PartialEq)]
pub enum Resource {
    Path(String),
}

impl View for Resource {
    type V = Seq<char>;

    open spec fn view(&self) -> Seq<char> {
        match self {
            Resource::Path(s) => s@,
        }
    }
}

/// A request as the contracts see it.
pub struct RequestView {
    pub method: Method,
    pub version: Version,
    pub path: Seq<char>,
    pub headers: HeaderList,
    pub body: Seq<char>,
}

/// A parsed request.
#[derive(Debug)]
pub struct HttpRequest {
    pub method: Method,
    pub version: Version,
    pub resource: Resource,
    pub headers: HeaderMap,
    pub body: String,
}

impl View for HttpRequest {
    type V = RequestView;

    open spec fn view(&self) -> RequestView {
        RequestView {
            method: self.method,
            version: self.version,
            path: self.resource@,
            headers: self.headers@,
            body: self.body@,
        }
    }
}

/// The request before any line is read.
pub open spec fn initial_request() -> RequestView {
    RequestView {
        method: Method::Unintialized,
        version: Version::V1_1,
        path: Seq::empty(),
        headers: Seq::empty(),
        body: Seq::empty(),
    }
}

/// What one line does to the request being built. A line holding `HTTP` is the
/// request line: its first three words are method, path and version, a missing
/// word counting as empty. Else a line holding `:` is a header, named by the
/// trimmed text before the first colon, valued by the trimmed text after it. Else
/// an empty line is skipped, and any other line becomes the body.
pub open spec fn apply_line(r: RequestView, l: Seq<char>) -> RequestView {
    if contains(l, request_mark()) {
        RequestView {
            method: method_of(word(l, 0)),
            version: version_of(word(l, 2)),
            path: word(l, 1),
            headers: r.headers,
            body: r.body,
        }
    } else if find_char(l, ':', 0) < l.len() {
        let c = find_char(l, ':', 0);
        RequestView {
            method: r.method,
            version: r.version,
            path: r.path,
            headers: insert_entry(
                r.headers,
                trim(l.subrange(0, c)),
                trim(l.subrange(c + 1, l.len() as int)),
            ),
            body: r.body,
        }
    } else if l.len() == 0 {
        r
    } else {
        RequestView {
            method: r.method,
            version: r.version,
            path: r.path,
            headers: r.headers,
            body: l,
        }
    }
}

/// The line `s[start..i]` ended by a line feed at `i`, less a carriage return
/// just before it.
pub open spec fn line_before(s: Seq<char>, start: int, i: int) -> Seq<char> {
    if start < i && s[i - 1] == '\r' {
        s.subrange(start, i - 1)
    } else {
        s.subrange(start, i)
    }
}

/// The request `r` after the lines of `s` from `start` on, where `s[start..i]`
/// holds no line feed. Lines end at `\n` or `\r\n`; the last line needs no
/// terminator, and a terminator at the very end opens no new line.
pub open spec fn parse_from(s: Seq<char>, start: int, i: int, r: RequestView) -> RequestView
    decreases s.len() - i,
{
    if i < 0 || i >= s.len() {
        if 0 <= start < s.len() {
            apply_line(r, s.subrange(start, s.len() as int))
        } else {
            r
        }
    } else if s[i] == '\n' {
        parse_from(s, i + 1, i + 1, apply_line(r, line_before(s, start, i)))
    } else {
        parse_from(s, start, i + 1, r)
    }
}

/// The request that raw text `s` describes: each line applied in order.
pub open spec fn request_of(s: Seq<char>) -> RequestView {
    parse_from(s, 0, 0, initial_request())
}

impl HttpRequest {
    /// Applies one line of raw text to the request being built.
    fn apply_line(&mut self, line: &str)
        requires
            old(self).headers.wf(),
        ensures
            final(self)@ == apply_line(old(self)@, line@),
            final(self).headers.wf(),
    {
        let cs = chars_of(line);
        if has_request_mark(&cs) {
            let ws = words_of(line, &cs);
            let m = word_or_empty(&ws, 0);
            let p = word_or_empty(&ws, 1);
            let v = word_or_empty(&ws, 2);
            self.method = Method::from(m.as_str());
            self.version = Version::from(v.as_str());
            self.resource = Resource::Path(p);
        } else {
            let n = cs.len();
            let c = find(&cs, ':', 0);
            if c < n {
                let (a, b) = trim_span(&cs, 0, c);
                let (x, y) = trim_span(&cs, c + 1, n);
                let key = line.substring_char(a, b);
                let value = line.substring_char(x, y);
                self.headers.insert(key, value);
            } else if n == 0 {
            } else {
                self.body = String::from_str(line);
            }
        }
    }

    /// Parses the raw text of one request. Parsing never fails: what no line
    /// sets keeps its initial value.
    pub fn parse(raw: &str) -> (r: HttpRequest)
        ensures
            r@ == request_of(raw@),
            r.headers.wf(),
    {
        let cs = chars_of(raw);
        let n = cs.len();
        let mut req = HttpRequest {
            method: Method::Unintialized,
            version: Version::V1_1,
            resource: Resource::Path(String::new()),
            headers: HeaderMap::new(),
            body: String::new(),
        };
        let mut start: usize = 0;
        let mut i: usize = 0;
        while i < n
            invariant
                n == raw@.len(),
                cs@ == raw@,
                start <= i <= n,
                req.headers.wf(),
                parse_from(raw@, start as int, i as int, req@) == request_of(raw@),
            decreases n - i,
        {
            if cs[i] == '\n' {
                let end = if start < i && cs[i - 1] == '\r' {
                    i - 1
                } else {
                    i
                };
                let line = raw.substring_char(start, end);
                req.apply_line(line);
                start = i + 1;
            }
            i += 1;
        }
        if start < n {
            let line = raw.substring_char(start, n);
            req.apply_line(line);
        }
        req
    }
}

impl From<String> for HttpRequest {
    fn from(req: String) -> HttpRequest {
        HttpRequest::parse(req.as_str())
    }
}

impl vstd::std_specs::convert::FromSpecImpl<String> for HttpRequest {
    open spec fn obeys_from_spec() -> bool {
        false
    }

    open spec fn from_spec(v: String) -> HttpRequest {
        arbitrary()
    }
}

} // verus!
