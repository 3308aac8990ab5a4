//! The response side: building a response from a status code, headers and a
//! body, and rendering it as wire text.
use vstd::prelude::*;

use crate::headers::{HeaderList, HeaderMap};
use crate::text::{decimal, digit, same_text};
use vstd::utf8::encode_utf8;

verus! {

#[verifier::external_type_specification]
#[verifier::external_body]
pub struct ExIoError(std::io::Error);

/// A response as the contracts see it.
pub struct ResponseView {
    pub version: Seq<char>,
    pub status_code: Seq<char>,
    pub status_text: Seq<char>,
    pub headers: Option<HeaderList>,
    pub body: Option<Seq<char>>,
}

/// The reason phrase for a status code.
pub open spec fn status_text_of(code: Seq<char>) -> Seq<char> {
    if code == "200"@ {
        "OK"@
    } else if code == "400"@ {
        "Bad Request"@
    } else if code == "404"@ {
        "Not Found"@
    } else if code == "500"@ {
        "Internal Server Error"@
    } else {
        "Unknown"@
    }
}

/// The headers a response gets when the caller gives none.
pub open spec fn default_headers() -> HeaderList {
    seq![("Content-Type"@, "text/html"@)]
}

/// The response that `HttpResponse::default` returns.
pub open spec fn default_response() -> ResponseView {
    ResponseView {
        version: "HTTP/1.1"@,
        status_code: "200"@,
        status_text: "OK"@,
        headers: None,
        body: None,
    }
}

/// The response built from a status code, optional headers and optional body.
pub open spec fn built(code: Seq<char>, headers: Option<HeaderList>, body: Option<Seq<char>>) -> ResponseView {
    ResponseView {
        version: "HTTP/1.1"@,
        status_code: code,
        status_text: status_text_of(code),
        headers: Some(
            match headers {
                Some(h) => h,
                None => default_headers(),
            },
        ),
        body: body,
    }
}

/// The view of an optional string.
pub open spec fn opt_view(s: Option<String>) -> Option<Seq<char>> {
    match s {
        Some(t) => Some(t@),
        None => None,
    }
}

/// One `name: value` line per header, in order.
pub open spec fn header_lines(e: HeaderList) -> Seq<char>
    decreases e.len(),
{
    if e.len() == 0 {
        Seq::empty()
    } else {
        header_lines(e.drop_last()) + e.last().0 + ": "@ + e.last().1 + "\r\n"@
    }
}

/// The `Content-Length` line for a body: its length in UTF-8 bytes.
pub open spec fn length_line(b: Seq<char>) -> Seq<char> {
    "Content-Length: "@ + decimal(encode_utf8(b).len()) + "\r\n"@
}

/// The wire text of a response: status line, header lines, a `Content-Length`
/// line when there is a body, a blank line, then the body.
pub open spec fn wire(r: ResponseView) -> Seq<char> {
    r.version + " "@ + r.status_code + " "@ + r.status_text + "\r\n"@ + match r.headers {
        Some(h) => header_lines(h),
        None => Seq::empty(),
    } + match r.body {
        Some(b) => length_line(b),
        None => Seq::empty(),
    } + "\r\n"@ + match r.body {
        Some(b) => b,
        None => Seq::empty(),
    }
}

/// Relies on `std::io::Write::write_all`: writes every byte of `text` to the
/// sink, or hands back the sink's error.
#[verifier::external_body]
fn write_text<W: std::io::Write>(sink: &mut W, text: &str) -> (r: Result<(), std::io::Error>) {
    sink.write_all(text.as_bytes())
}

/// The one-character text of decimal digit `d`.
fn digit_text(d: usize) -> (r: &'static str)
    requires
        d < 10,
    ensures
        r@ == seq![digit(d as nat)],
{
    proof {
        reveal_strlit("0");
        reveal_strlit("1");
        reveal_strlit("2");
        reveal_strlit("3");
        reveal_strlit("4");
        reveal_strlit("5");
        reveal_strlit("6");
        reveal_strlit("7");
        reveal_strlit("8");
        reveal_strlit("9");
    }
    match d {
        0 => "0",
        1 => "1",
        2 => "2",
        3 => "3",
        4 => "4",
        5 => "5",
        6 => "6",
        7 => "7",
        8 => "8",
        _ => "9",
    }
}

/// Appends the decimal numeral of `n` to `out`.
fn append_decimal(out: &mut String, n: usize)
    ensures
        final(out)@ == old(out)@ + decimal(n as nat),
    decreases n,
{
    if n >= 10 {
        append_decimal(out, n / 10);
    }
    out.append(digit_text(n % 10));
    assert(final(out)@ =~= old(out)@ + decimal(n as nat));
}

/// The reason phrase for `code`.
fn status_text_for(code: &str) -> (r: &'static str)
    ensures
        r@ == status_text_of(code@),
{
    if same_text(code, "200") {
        "OK"
    } else if same_text(code, "400") {
        "Bad Request"
    } else if same_text(code, "404") {
        "Not Found"
    } else if same_text(code, "500") {
        "Internal Server Error"
    } else {
        "Unknown"
    }
}

/// An HTTP response.
#[derive(Debug, Clone, PartialEq)]
pub struct HttpResponse {
    version: String,
    status_code: String,
    status_text: String,
    headers: Option<HeaderMap>,
    body: Option<String>,
}

impl View for HttpResponse {
    type V = ResponseView;

    closed spec fn view(&self) -> ResponseView {
        ResponseView {
            version: self.version@,
            status_code: self.status_code@,
            status_text: self.status_text@,
            headers: match self.headers {
                Some(h) => Some(h@),
                None => None,
            },
            body: opt_view(self.body),
        }
    }
}

impl HttpResponse {
    /// `HTTP/1.1 200 OK`, with no headers and no body.
    pub fn default() -> (r: HttpResponse)
        ensures
            r@ == default_response(),
    {
        HttpResponse {
            version: String::from_str("HTTP/1.1"),
            status_code: String::from_str("200"),
            status_text: String::from_str("OK"),
            headers: None,
            body: None,
        }
    }

    /// A response with the given status code, the reason phrase that goes with
    /// it, the given headers (or `Content-Type: text/html` when none are given),
    /// and the given body.
    pub fn new(status_code: &str, headers: Option<HeaderMap>, body: Option<String>) -> (r:
        HttpResponse)
        ensures
            r@ == built(
                status_code@,
                match headers {
                    Some(h) => Some(h@),
                    None => None,
                },
                opt_view(body),
            ),
    {
        let mut response = HttpResponse::default();
        response.status_code = String::from_str(status_code);
        response.status_text = String::from_str(status_text_for(status_code));
        response.headers = match headers {
            Some(h) => Some(h),
            None => {
                let mut h = HeaderMap::new();
                h.insert("Content-Type", "text/html");
                assert(h@ =~= default_headers());
                Some(h)
            },
        };
        response.body = body;
        response
    }

    /// The wire text of this response.
    pub fn to_wire(&self) -> (r: String)
        ensures
            r@ == wire(self@),
    {
        let mut out = String::new();
        out.append(self.version.as_str());
        out.append(" ");
        out.append(self.status_code.as_str());
        out.append(" ");
        out.append(self.status_text.as_str());
        out.append("\r\n");
        let ghost head = out@;
        match &self.headers {
            Some(h) => {
                let mut i: usize = 0;
                while i < h.len()
                    invariant
                        i <= h@.len(),
                        out@ == head + header_lines(h@.take(i as int)),
                    decreases h@.len() - i,
                {
                    let ghost before = out@;
                    out.append(h.name_at(i));
                    out.append(": ");
                    out.append(h.value_at(i));
                    out.append("\r\n");
                    assert(h@.take(i + 1).drop_last() =~= h@.take(i as int));
                    assert(out@ =~= head + header_lines(h@.take(i + 1)));
                    i += 1;
                }
                assert(h@.take(h@.len() as int) =~= h@);
            },
            None => {
                assert(out@ =~= head + Seq::<char>::empty());
            },
        }
        let ghost with_headers = out@;
        assert(with_headers == self@.version + " "@ + self@.status_code + " "@ + self@.status_text
            + "\r\n"@ + match self@.headers {
            Some(h) => header_lines(h),
            None => Seq::empty(),
        });
        match &self.body {
            Some(b) => {
                out.append("Content-Length: ");
                let bs = b.as_str();
                let n = bs.as_bytes().len();
                assert(n == encode_utf8(b@).len());
                append_decimal(&mut out, n);
                out.append("\r\n");
                assert(out@ =~= with_headers + length_line(b@));
                out.append("\r\n");
                out.append(b.as_str());
                assert(out@ =~= with_headers + length_line(b@) + "\r\n"@ + b@);
            },
            None => {
                out.append("\r\n");
                assert(out@ =~= with_headers + Seq::<char>::empty() + "\r\n"@ + Seq::<char>::empty());
            },
        }
        assert(out@ =~= wire(self@));
        out
    }

    /// Writes the wire text of this response to `write_stream`; a failed write
    /// is handed back as is.
    pub fn send<W: std::io::Write>(&self, write_stream: &mut W) -> (r: Result<(), std::io::Error>) {
        let text = self.to_wire();
        write_text(write_stream, text.as_str())
    }

    /// The protocol version.
    pub fn version(&self) -> (r: &str)
        ensures
            r@ == self@.version,
    {
        self.version.as_str()
    }

    /// The status code.
    pub fn status_code(&self) -> (r: &str)
        ensures
            r@ == self@.status_code,
    {
        self.status_code.as_str()
    }

    /// The reason phrase.
    pub fn status_text(&self) -> (r: &str)
        ensures
            r@ == self@.status_text,
    {
        self.status_text.as_str()
    }

    /// The header lines, each ended by CRLF; empty when there are no headers.
    pub fn headers(&self) -> (r: String)
        ensures
            r@ == match self@.headers {
                Some(h) => header_lines(h),
                None => Seq::empty(),
            },
    {
        let mut out = String::new();
        match &self.headers {
            Some(h) => {
                let mut i: usize = 0;
                while i < h.len()
                    invariant
                        i <= h@.len(),
                        out@ == header_lines(h@.take(i as int)),
                    decreases h@.len() - i,
                {
                    out.append(h.name_at(i));
                    out.append(": ");
                    out.append(h.value_at(i));
                    out.append("\r\n");
                    assert(h@.take(i + 1).drop_last() =~= h@.take(i as int));
                    assert(out@ =~= header_lines(h@.take(i + 1)));
                    i += 1;
                }
                assert(h@.take(h@.len() as int) =~= h@);
            },
            None => {},
        }
        out
    }

    /// The headers, if the response has any.
    pub fn headers_map(&self) -> (r: Option<&HeaderMap>)
        ensures
            match r {
                Some(h) => self@.headers == Some(h@),
                None => self@.headers is None,
            },
    {
        self.headers.as_ref()
    }

    /// The body, if the response has one.
    pub fn body(&self) -> (r: Option<&String>)
        ensures
            match r {
                Some(b) => self@.body == Some(b@),
                None => self@.body is None,
            },
    {
        self.body.as_ref()
    }
}

impl<'a> From<&'a HttpResponse> for String {
    fn from(res: &'a HttpResponse) -> String {
        res.to_wire()
    }
}

impl<'a> vstd::std_specs::convert::FromSpecImpl<&'a HttpResponse> for String {
    open spec fn obeys_from_spec() -> bool {
        false
    }

    open spec fn from_spec(v: &'a HttpResponse) -> String {
        arbitrary()
    }
}

/// Rendering is a function of the response alone: two renderings of one
/// response give the same text, and so the same bytes.
pub proof fn lemma_wire_deterministic(r: HttpResponse, a: String, b: String)
    requires
        a@ == wire(r@),
        b@ == wire(r@),
    ensures
        a@ == b@,
        encode_utf8(a@) == encode_utf8(b@),
{
}

} // verus!
