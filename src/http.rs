//! Best-effort records of the HTTP text seen at the splice point: the
//! request line with its headers and body lines, and the status line of a
//! response with what follows it.

use vstd::prelude::*;
use vstd::string::StrSliceExecFns;

use crate::text::{
    chars_of, first_empty, first_empty_line, join_from, join_with, lines, lines_of, parse_u16,
    parse_u16_chars, split_by, split_chars, string_of, views, words, words_of, Sep,
};

verus! {

/// An HTTP request method.
#[derive(Debug, Clone, Copy, PartialEq, Eq, Hash, Structural)]
pub enum Method {
    GET,
    POST,
    PUT,
    DELETE,
    HEAD,
    OPTIONS,
    CONNECT,
    PATCH,
    TRACE,
}

/// What `str::to_uppercase` makes of a string.
pub uninterp spec fn uppercase_of(s: Seq<char>) -> Seq<char>;

/// Relies on `str::to_uppercase`: the result depends on the characters alone.
#[verifier::external_body]
fn to_upper(s: &str) -> (r: String)
    ensures
        r@ == uppercase_of(s@),
{
    s.to_uppercase()
}

/// Whether `a` holds exactly the characters of `b`.
fn same_chars(a: &Vec<char>, b: &str) -> (r: bool)
    ensures
        r == (a@ == b@),
{
    let n = b.unicode_len();
    if a.len() != n {
        return false;
    }
    let mut i: usize = 0;
    while i < n
        invariant
            i <= n == a@.len() == b@.len(),
            forall|j: int| 0 <= j < i ==> a@[j] == b@[j],
        decreases n - i,
    {
        if a[i] != b.get_char(i) {
            return false;
        }
        i = i + 1;
    }
    assert(a@ =~= b@);
    true
}

/// The method whose name is exactly `s`, if any.
pub open spec fn method_named(s: Seq<char>) -> Option<Method> {
    if s == Method::GET.name() {
        Some(Method::GET)
    } else if s == Method::POST.name() {
        Some(Method::POST)
    } else if s == Method::PUT.name() {
        Some(Method::PUT)
    } else if s == Method::DELETE.name() {
        Some(Method::DELETE)
    } else if s == Method::HEAD.name() {
        Some(Method::HEAD)
    } else if s == Method::OPTIONS.name() {
        Some(Method::OPTIONS)
    } else if s == Method::CONNECT.name() {
        Some(Method::CONNECT)
    } else if s == Method::PATCH.name() {
        Some(Method::PATCH)
    } else if s == Method::TRACE.name() {
        Some(Method::TRACE)
    } else {
        None
    }
}

impl Method {
    /// The method's name in upper case.
    pub open spec fn name(self) -> Seq<char> {
        match self {
            Method::GET => seq!['G', 'E', 'T'],
            Method::POST => seq!['P', 'O', 'S', 'T'],
            Method::PUT => seq!['P', 'U', 'T'],
            Method::DELETE => seq!['D', 'E', 'L', 'E', 'T', 'E'],
            Method::HEAD => seq!['H', 'E', 'A', 'D'],
            Method::OPTIONS => seq!['O', 'P', 'T', 'I', 'O', 'N', 'S'],
            Method::CONNECT => seq!['C', 'O', 'N', 'N', 'E', 'C', 'T'],
            Method::PATCH => seq!['P', 'A', 'T', 'C', 'H'],
            Method::TRACE => seq!['T', 'R', 'A', 'C', 'E'],
        }
    }

    /// The method's name.
    pub fn as_str(&self) -> (r: &'static str)
        ensures
            r@ == self.name(),
    {
        match self {
            Method::GET => {
                proof { reveal_strlit("GET"); }
                "GET"
            },
            Method::POST => {
                proof { reveal_strlit("POST"); }
                "POST"
            },
            Method::PUT => {
                proof { reveal_strlit("PUT"); }
                "PUT"
            },
            Method::DELETE => {
                proof { reveal_strlit("DELETE"); }
                "DELETE"
            },
            Method::HEAD => {
                proof { reveal_strlit("HEAD"); }
                "HEAD"
            },
            Method::OPTIONS => {
                proof { reveal_strlit("OPTIONS"); }
                "OPTIONS"
            },
            Method::CONNECT => {
                proof { reveal_strlit("CONNECT"); }
                "CONNECT"
            },
            Method::PATCH => {
                proof { reveal_strlit("PATCH"); }
                "PATCH"
            },
            Method::TRACE => {
                proof { reveal_strlit("TRACE"); }
                "TRACE"
            },
        }
    }

    /// The method whose upper-case name is exactly `name`.
    pub fn from_uppercase(name: &str) -> (r: Option<Self>)
        ensures
            r == method_named(name@),
    {
        let v = chars_of(name);
        if same_chars(&v, Method::GET.as_str()) {
            Some(Method::GET)
        } else if same_chars(&v, Method::POST.as_str()) {
            Some(Method::POST)
        } else if same_chars(&v, Method::PUT.as_str()) {
            Some(Method::PUT)
        } else if same_chars(&v, Method::DELETE.as_str()) {
            Some(Method::DELETE)
        } else if same_chars(&v, Method::HEAD.as_str()) {
            Some(Method::HEAD)
        } else if same_chars(&v, Method::OPTIONS.as_str()) {
            Some(Method::OPTIONS)
        } else if same_chars(&v, Method::CONNECT.as_str()) {
            Some(Method::CONNECT)
        } else if same_chars(&v, Method::PATCH.as_str()) {
            Some(Method::PATCH)
        } else if same_chars(&v, Method::TRACE.as_str()) {
            Some(Method::TRACE)
        } else {
            None
        }
    }

    /// The method named by `method` in any letter case.
    pub fn from_str(method: &str) -> (r: Option<Self>)
        ensures
            r == method_named(uppercase_of(method@)),
    {
        let upper = to_upper(method);
        Method::from_uppercase(upper.as_str())
    }
}

impl Default for Method {
    fn default() -> (r: Self)
        ensures
            r == Method::GET,
    {
        Method::GET
    }
}

/// The character sequences held by a list of strings.
pub open spec fn strs(v: Seq<String>) -> Seq<Seq<char>> {
    v.map_values(|x: String| x@)
}

/// A request as parsed from its text.
#[derive(Clone, Debug)]
pub struct Request {
    pub method: Method,
    pub url: String,
    pub http_version: String,
    pub headers: Vec<String>,
    pub body: Vec<String>,
}

pub struct RequestView {
    pub method: Method,
    pub url: Seq<char>,
    pub http_version: Seq<char>,
    pub headers: Seq<Seq<char>>,
    pub body: Seq<Seq<char>>,
}

impl View for Request {
    type V = RequestView;

    open spec fn view(&self) -> RequestView {
        RequestView {
            method: self.method,
            url: self.url@,
            http_version: self.http_version@,
            headers: strs(self.headers@),
            body: strs(self.body@),
        }
    }
}

/// The request that `raw` holds, if it can be read: a non-empty first line
/// `METHOD url version` split at single spaces, then header lines up to the
/// first empty line, then (except for `CONNECT`) body lines. A method spelled
/// exactly `CONNECT` is taken as is; any other is looked up in upper case.
pub open spec fn request_of(raw: Seq<char>) -> Option<RequestView> {
    let ls = lines_of(raw);
    if ls.len() == 0 || ls[0].len() == 0 {
        None
    } else {
        let parts = split_by(ls[0], Sep::Char(' '));
        let rest = ls.skip(1);
        let pos = first_empty(rest);
        let method = if parts[0] == Method::CONNECT.name() {
            Some(Method::CONNECT)
        } else {
            method_named(uppercase_of(parts[0]))
        };
        if pos == rest.len() || parts.len() < 3 || method is None {
            None
        } else {
            Some(
                RequestView {
                    method: method->0,
                    url: parts[1],
                    http_version: parts[2],
                    headers: rest.take(pos),
                    body: if parts[0] == Method::CONNECT.name() {
                        Seq::empty()
                    } else {
                        rest.skip(pos + 1)
                    },
                },
            )
        }
    }
}

/// The strings of `p[from..to]`.
fn strings_between(p: &Vec<Vec<char>>, from: usize, to: usize) -> (r: Vec<String>)
    requires
        from <= to <= p@.len(),
    ensures
        strs(r@) == views(p@).subrange(from as int, to as int),
{
    let mut r: Vec<String> = Vec::new();
    let mut i: usize = from;
    while i < to
        invariant
            from <= i <= to <= p@.len(),
            strs(r@) =~= views(p@).subrange(from as int, i as int),
        decreases to - i,
    {
        let ghost before = strs(r@);
        r.push(string_of(p[i].as_slice()));
        assert(strs(r@) =~= before.push(p@[i as int]@));
        assert(views(p@).subrange(from as int, i + 1) =~= views(p@).subrange(
            from as int,
            i as int,
        ).push(p@[i as int]@));
        i = i + 1;
    }
    r
}

impl Request {
    /// Parses a request from its text; `None` where the text is not a request.
    pub fn from_string(raw_data: &str) -> (r: Option<Self>)
        ensures
            match request_of(raw_data@) {
                Some(v) => r matches Some(q) && q@ == v,
                None => r is None,
            },
    {
        let chars = chars_of(raw_data);
        let mut ls = lines(&chars);
        if ls.len() == 0 || ls[0].len() == 0 {
            return None;
        }
        let ghost lv = views(ls@);
        let first = ls.remove(0);
        assert(views(ls@) =~= lv.skip(1));
        let parts = split_chars(&first, Sep::Char(' '));
        proof { crate::text::lemma_split_nonempty(first@, Sep::Char(' ')); }
        assert(views(parts@)[0] == parts@[0]@);
        let pos = first_empty_line(&ls);
        if pos == ls.len() || parts.len() < 3 {
            return None;
        }
        assert(views(parts@)[1] == parts@[1]@);
        assert(views(parts@)[2] == parts@[2]@);
        let connect = same_chars(&parts[0], Method::CONNECT.as_str());
        let method = if connect {
            Method::CONNECT
        } else {
            match Method::from_str(string_of(parts[0].as_slice()).as_str()) {
                Some(m) => m,
                None => {
                    return None;
                },
            }
        };
        let headers = strings_between(&ls, 0, pos);
        let body = if connect {
            let b: Vec<String> = Vec::new();
            assert(strs(b@) =~= Seq::<Seq<char>>::empty());
            b
        } else {
            strings_between(&ls, pos + 1, ls.len())
        };
        assert(views(ls@).subrange(0, pos as int) =~= views(ls@).take(pos as int));
        assert(views(ls@).subrange(pos + 1, ls@.len() as int) =~= views(ls@).skip(pos + 1));
        Some(
            Request {
                method,
                url: string_of(parts[1].as_slice()),
                http_version: string_of(parts[2].as_slice()),
                headers,
                body,
            },
        )
    }
}

/// The empty request: method `GET`, everything else empty.
pub open spec fn default_request() -> RequestView {
    RequestView {
        method: Method::GET,
        url: Seq::empty(),
        http_version: Seq::empty(),
        headers: Seq::empty(),
        body: Seq::empty(),
    }
}

impl Default for Request {
    fn default() -> (r: Self)
        ensures
            r@ == default_request(),
    {
        let r = Request {
            method: Method::GET,
            url: String::new(),
            http_version: String::new(),
            headers: Vec::new(),
            body: Vec::new(),
        };
        assert(r@.headers =~= Seq::<Seq<char>>::empty());
        assert(r@.body =~= Seq::<Seq<char>>::empty());
        assert(r@.url =~= Seq::<char>::empty());
        assert(r@.http_version =~= Seq::<char>::empty());
        r
    }
}

/// A response as parsed from its text.
#[derive(Clone, Debug)]
pub struct Response {
    pub status_code: u16,
    pub message: String,
    pub data: Option<String>,
    pub error: Option<String>,
}

/// Why a response's text could not be read.
#[derive(Debug, Clone, Copy, PartialEq, Eq, Structural)]
pub enum ResponseError {
    /// The status line has fewer than two words.
    InvalidStatusLine,
    /// The status line's second word is not a 16-bit number.
    InvalidStatusCode,
}

pub struct ResponseView {
    pub status_code: u16,
    pub message: Seq<char>,
    pub data: Option<Seq<char>>,
    pub error: Option<Seq<char>>,
}

pub open spec fn opt_view(o: Option<String>) -> Option<Seq<char>> {
    match o {
        Some(s) => Some(s@),
        None => None,
    }
}

impl View for Response {
    type V = ResponseView;

    open spec fn view(&self) -> ResponseView {
        ResponseView {
            status_code: self.status_code,
            message: self.message@,
            data: opt_view(self.data),
            error: opt_view(self.error),
        }
    }
}

/// The response that `raw` holds. Empty text is an empty response (status 0).
/// Otherwise the first line's words give the status code (second word) and
/// the message (the words after it, joined by single spaces); the remaining
/// lines, joined by `\r\n`, are the data when not empty; a status of 400 or
/// more repeats the message as the error.
pub open spec fn response_of(raw: Seq<char>) -> Result<ResponseView, ResponseError> {
    let ls = lines_of(raw);
    if ls.len() == 0 {
        Ok(ResponseView { status_code: 0, message: Seq::empty(), data: None, error: None })
    } else {
        let parts = words_of(ls[0]);
        if parts.len() < 2 {
            Err(ResponseError::InvalidStatusLine)
        } else {
            match parse_u16(parts[1]) {
                None => Err(ResponseError::InvalidStatusCode),
                Some(code) => {
                    let message = join_with(parts.skip(2), seq![' ']);
                    let body = join_with(ls.skip(1), seq!['\r', '\n']);
                    Ok(
                        ResponseView {
                            status_code: code,
                            message,
                            data: if body.len() > 0 {
                                Some(body)
                            } else {
                                None
                            },
                            error: if code >= 400 {
                                Some(message)
                            } else {
                                None
                            },
                        },
                    )
                },
            }
        }
    }
}

impl Response {
    /// Parses a response from its text.
    pub fn from_string(raw_response: &str) -> (r: Result<Self, ResponseError>)
        ensures
            match response_of(raw_response@) {
                Ok(v) => r matches Ok(q) && q@ == v,
                Err(e) => r == Err::<Self, ResponseError>(e),
            },
    {
        let chars = chars_of(raw_response);
        let ls = lines(&chars);
        if ls.len() == 0 {
            let r = Response::default();
            assert(r.message@ =~= Seq::<char>::empty());
            return Ok(r);
        }
        assert(views(ls@)[0] == ls@[0]@);
        let parts = words(&ls[0]);
        if parts.len() < 2 {
            return Err(ResponseError::InvalidStatusLine);
        }
        assert(views(parts@)[1] == parts@[1]@);
        let code = match parse_u16_chars(&parts[1]) {
            Some(c) => c,
            None => {
                return Err(ResponseError::InvalidStatusCode);
            },
        };
        let space = vec![' '];
        let message_chars = join_from(&parts, 2, &space);
        let crlf = vec!['\r', '\n'];
        let body = join_from(&ls, 1, &crlf);
        let message = string_of(message_chars.as_slice());
        let data = if body.len() > 0 {
            Some(string_of(body.as_slice()))
        } else {
            None
        };
        let error = if code >= 400 {
            Some(string_of(message_chars.as_slice()))
        } else {
            None
        };
        proof {
            assert(space@ =~= seq![' ']);
            assert(crlf@ =~= seq!['\r', '\n']);
        }
        Ok(Response { status_code: code, message, data, error })
    }
}

/// The empty response: status 0, empty message, no data, no error.
pub open spec fn default_response() -> ResponseView {
    ResponseView { status_code: 0, message: Seq::empty(), data: None, error: None }
}

impl Default for Response {
    fn default() -> (r: Self)
        ensures
            r@ == default_response(),
    {
        let r = Response { status_code: 0, message: String::new(), data: None, error: None };
        assert(r@.message =~= Seq::<char>::empty());
        r
    }
}

} // verus!
