//! The stream of images: one response without end, made of parts, each an
//! image behind a header of its own.

use crate::clock::Timestamp;
use crate::features::http_server::HttpRequest;
use crate::features::http_server::HttpServerData;
use crate::text::decimal_chars;
use crate::text::padded_decimal_chars;
use crate::text::push_decimal;
use crate::text::push_padded_decimal;
use vstd::prelude::*;
use vstd::string::StrSliceExecFns;
use vstd::string::StringExecFns;
use vstd::utf8::encode_utf8;

verus! {

/// The requests that the stream server answers.
#[derive(Clone, Copy, Debug, PartialEq, Eq, Structural)]
pub enum PossibleHttpRequest {
    /// The stream of images.
    Stream,
}

impl PossibleHttpRequest {
    /// The path of the request.
    pub fn uri(&self) -> (r: &'static str)
        ensures
            r@ == "/stream"@,
    {
        "/stream"
    }

    /// Every request of the stream server, each once.
    pub open spec fn spec_all() -> Seq<PossibleHttpRequest> {
        seq![PossibleHttpRequest::Stream]
    }

    /// Every request of the stream server, each once.
    pub fn all() -> (r: Vec<PossibleHttpRequest>)
        ensures
            r@ == PossibleHttpRequest::spec_all(),
    {
        vec![PossibleHttpRequest::Stream]
    }
}

impl HttpRequest for PossibleHttpRequest {
    type Data = HttpServerData;
}

/// How many handlers the stream server has to hold.
pub fn http_request_handlers_count() -> (r: usize)
    ensures
        r == 1,
{
    1
}

/// The line that parts one image from the next.
pub const BOUNDARY: &'static str = "\r\n--123456789000000000000987654321\r\n";

/// The content type of the whole response, which names the boundary.
pub const CONTENT_TYPE: &'static str =
    "multipart/x-mixed-replace;boundary=123456789000000000000987654321";

/// `embedded_svc::http::headers::content_type`: the header that carries
/// the content type given, under the name `Content-Type`.
pub assume_specification[ embedded_svc::http::headers::content_type ](ctype: &str) -> (r: (
    &str,
    &str,
))
    ensures
        r.0@ == "Content-Type"@,
        r.1@ == ctype@,
;

/// The headers of the response, in the order in which they are sent.
pub fn response_headers() -> (r: [(&'static str, &'static str); 3])
    ensures
        r[0].0@ == "Content-Type"@,
        r[0].1@ == CONTENT_TYPE@,
        r[1].0@ == "Access-Control-Allow-Origin"@,
        r[1].1@ == "*"@,
        r[2].0@ == "X-Framerate"@,
        r[2].1@ == "60"@,
{
    [
        embedded_svc::http::headers::content_type(CONTENT_TYPE),
        ("Access-Control-Allow-Origin", "*"),
        ("X-Framerate", "60"),
    ]
}

/// The header of one part: the boundary, the type of the image, its length
/// in bytes, and the time of its capture in seconds and six digits of
/// microseconds, closed by an empty line.
pub open spec fn part_header_chars(length: nat, secs: nat, subsec_micros: nat) -> Seq<char> {
    BOUNDARY@ + "Content-Type: image/jpeg\r\n"@ + "Content-Length: "@ + decimal_chars(length)
        + "\r\n"@ + "X-Timestamp: "@ + decimal_chars(secs) + "."@ + padded_decimal_chars(
        subsec_micros,
        6,
    ) + "\r\n\r\n"@
}

/// The header of the part that carries an image of `length` bytes taken at
/// `timestamp`.
pub fn part_header(length: usize, timestamp: Timestamp) -> (r: String)
    ensures
        r@ == part_header_chars(
            length as nat,
            timestamp.spec_secs() as nat,
            (timestamp.spec_subsec_nanos() / 1000) as nat,
        ),
{
    let mut header: String = String::from_str(BOUNDARY);
    header.append("Content-Type: image/jpeg\r\n");
    header.append("Content-Length: ");
    push_decimal(&mut header, length as u64);
    header.append("\r\n");
    header.append("X-Timestamp: ");
    push_decimal(&mut header, timestamp.as_secs());
    header.append(".");
    push_padded_decimal(&mut header, timestamp.subsec_micros() as u64, 6);
    header.append("\r\n\r\n");
    header
}

/// The bytes of one part: its header, then the image.
pub open spec fn part_bytes(image: Seq<u8>, timestamp: Timestamp) -> Seq<u8> {
    encode_utf8(
        part_header_chars(
            image.len(),
            timestamp.spec_secs() as nat,
            (timestamp.spec_subsec_nanos() / 1000) as nat,
        ),
    ) + image
}

/// The part that carries `image`, taken at `timestamp`.
pub fn part(image: &[u8], timestamp: Timestamp) -> (r: Vec<u8>)
    ensures
        r@ == part_bytes(image@, timestamp),
{
    let header = part_header(image.len(), timestamp);
    let mut bytes: Vec<u8> = header.as_str().as_bytes_vec();
    let ghost header_bytes = bytes@;
    let mut i: usize = 0;
    while i < image.len()
        invariant
            i <= image@.len(),
            bytes@ == header_bytes + image@.subrange(0, i as int),
        decreases image@.len() - i,
    {
        bytes.push(image[i]);
        assert(bytes@ =~= header_bytes + image@.subrange(0, i + 1));
        i += 1;
    }
    assert(image@.subrange(0, i as int) =~= image@);
    bytes
}

} // verus!
