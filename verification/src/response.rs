//! The response that the gateway hands back to its host, and the two ways to
//! build one.

use vstd::prelude::*;
use vstd::slice::*;
use vstd::string::*;

verus! {

/// One header line of a response.
#[derive(Clone, Debug, PartialEq, Eq)]
pub struct Header {
    pub name: String,
    pub value: String,
}

/// What the host sends back for a request: a status code, the header lines in
/// the order in which they were set, and the body.
#[derive(Clone, Debug, PartialEq, Eq)]
pub struct Response {
    pub status: u16,
    pub headers: Vec<Header>,
    pub body: Vec<u8>,
}

/// A response as plain values: each header is a pair of name and value.
pub struct ResponseView {
    pub status: int,
    pub headers: Seq<(Seq<char>, Seq<char>)>,
    pub body: Seq<u8>,
}

impl View for Header {
    type V = (Seq<char>, Seq<char>);

    open spec fn view(&self) -> (Seq<char>, Seq<char>) {
        (self.name@, self.value@)
    }
}

impl View for Response {
    type V = ResponseView;

    open spec fn view(&self) -> ResponseView {
        ResponseView {
            status: self.status as int,
            headers: self.headers@.map_values(|h: Header| h@),
            body: self.body@,
        }
    }
}

impl ResponseView {
    /// The value of the first header called `name`, if there is one. Names
    /// are compared letter by letter.
    pub open spec fn header(self, name: Seq<char>) -> Option<Seq<char>> {
        first_value(self.headers, name)
    }
}

impl Response {
    /// The value of the first header called `name`, if the response has one.
    pub fn header(&self, name: &str) -> (value: Option<&str>)
        ensures
            match value {
                Some(text) => self@.header(name@) == Some(text@),
                None => self@.header(name@) is None,
            },
    {
        let ghost lines = self@.headers;
        let wanted: String = name.to_owned();
        let n: usize = self.headers.len();
        let mut i: usize = 0;
        assert(lines.skip(0) =~= lines);
        while i < n
            invariant
                n == self.headers.len(),
                lines == self@.headers,
                wanted@ == name@,
                i <= n,
                first_value(lines, name@) == first_value(lines.skip(i as int), name@),
            decreases n - i,
        {
            assert(lines.skip(i as int)[0] == self.headers@[i as int]@);
            if self.headers[i].name == wanted {
                return Some(self.headers[i].value.as_str());
            }
            assert(lines.skip(i as int).drop_first() =~= lines.skip(i + 1));
            i += 1;
        }
        None
    }
}

/// The value paired with the first occurrence of `name` in `headers`.
pub open spec fn first_value(headers: Seq<(Seq<char>, Seq<char>)>, name: Seq<char>) -> Option<
    Seq<char>,
>
    decreases headers.len(),
{
    if headers.len() == 0 {
        None
    } else if headers[0].0 == name {
        Some(headers[0].1)
    } else {
        first_value(headers.drop_first(), name)
    }
}

/// No header name occurs twice in `headers`.
pub open spec fn names_distinct(headers: Seq<(Seq<char>, Seq<char>)>) -> bool {
    forall|i: int, j: int| 0 <= i < j < headers.len() ==> headers[i].0 != headers[j].0
}

/// Status of a response that carries an asset.
pub const STATUS_FOUND: u16 = 200;

/// Status of the response for a key that the bundle does not hold.
pub const STATUS_NOT_FOUND: u16 = 404;

/// The text sent as the body when nothing is found.
pub open spec fn not_found_message() -> Seq<char> {
    "Archivo no encontrado"@
}

/// The response for an asset that was found: its bytes as they are, served
/// under `mime` and open to every origin.
pub open spec fn spec_found(content: Seq<u8>, mime: Seq<char>) -> ResponseView {
    ResponseView {
        status: 200,
        headers: seq![("Content-Type"@, mime), ("Access-Control-Allow-Origin"@, "*"@)],
        body: content,
    }
}

/// The one response for every key that is not in the bundle: the message
/// above, in UTF-8, as plain text.
pub open spec fn spec_not_found() -> ResponseView {
    ResponseView {
        status: 404,
        headers: seq![("Content-Type"@, "text/plain"@)],
        body: vstd::utf8::encode_utf8(not_found_message()),
    }
}

/// Builds the response that carries `content` with the media type `mime`.
pub fn build_found(content: &[u8], mime: &str) -> (response: Response)
    ensures
        response@ == spec_found(content@, mime@),
{
    let mut headers: Vec<Header> = Vec::new();
    headers.push(Header { name: "Content-Type".to_owned(), value: mime.to_owned() });
    headers.push(Header { name: "Access-Control-Allow-Origin".to_owned(), value: "*".to_owned() });
    let response = Response { status: STATUS_FOUND, headers, body: slice_to_vec(content) };
    assert(response@.headers =~= spec_found(content@, mime@).headers);
    response
}

/// Builds the response for a key that the bundle does not hold.
pub fn build_not_found() -> (response: Response)
    ensures
        response@ == spec_not_found(),
{
    let mut headers: Vec<Header> = Vec::new();
    headers.push(Header { name: "Content-Type".to_owned(), value: "text/plain".to_owned() });
    let response = Response {
        status: STATUS_NOT_FOUND,
        headers,
        body: "Archivo no encontrado".as_bytes_vec(),
    };
    assert(response@.headers =~= spec_not_found().headers);
    response
}

} // verus!
