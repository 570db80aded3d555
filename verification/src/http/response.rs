//! Responses, the builder that assembles them, and their wire form.

use crate::http::headers::{with_field, FieldView, Headers};
use crate::http::status::StatusCode;
use crate::http::version::Version;
use vstd::prelude::*;
use vstd::string::*;
use vstd::utf8::encode_utf8;

verus! {

/// The decimal digit for a value below ten.
pub open spec fn digit(d: nat) -> char {
    ((0x30 + d) as u8) as char
}

/// A natural number written in decimal, without leading zeros.
pub open spec fn decimal(n: nat) -> Seq<char>
    decreases n,
{
    if n < 10 {
        seq![digit(n)]
    } else {
        decimal(n / 10).push(digit(n % 10))
    }
}

/// The text of one decimal digit.
fn digit_str(d: usize) -> (text: &'static str)
    requires
        d < 10,
    ensures
        text@ == seq![digit(d as nat)],
{
    proof {
        reveal_strlit("0");
        reveal_strlit("1");
        reveal_strlit("2");
        reveal_strlit("3");
        reveal_strlit("4");
        reveal_strlit("5");
        reveal_strlit("6");
        reveal_strlit("7");
        reveal_strlit("8");
        reveal_strlit("9");
    }
    let text = match d {
        0 => "0",
        1 => "1",
        2 => "2",
        3 => "3",
        4 => "4",
        5 => "5",
        6 => "6",
        7 => "7",
        8 => "8",
        _ => "9",
    };
    text
}

/// Writes a number in decimal.
pub fn decimal_string(n: usize) -> (text: String)
    ensures
        text@ == decimal(n as nat),
    decreases n,
{
    if n < 10 {
        digit_str(n).to_owned()
    } else {
        let mut text = decimal_string(n / 10);
        text.append(digit_str(n % 10));
        text
    }
}

/// The header lines of a message on the wire: for each field its name,
/// `: `, its value and a line end.
pub open spec fn header_lines(fields: Seq<FieldView>) -> Seq<u8>
    decreases fields.len(),
{
    if fields.len() == 0 {
        Seq::empty()
    } else {
        header_lines(fields.drop_last()) + encode_utf8(fields.last().0) + encode_utf8(": "@)
            + encode_utf8(fields.last().1) + encode_utf8("\r\n"@)
    }
}

/// A response on the wire: the status line, the header lines, an empty
/// line, the body and a line end.
pub open spec fn wire(status: StatusCode, fields: Seq<FieldView>, body: Seq<u8>) -> Seq<u8> {
    encode_utf8("HTTP/1.1 "@) + encode_utf8(status.line()) + encode_utf8("\r\n"@) + header_lines(
        fields,
    ) + encode_utf8("\r\n"@) + body + encode_utf8("\r\n"@)
}

/// Appends bytes to a buffer.
fn push_bytes(stream: &mut Vec<u8>, bytes: &[u8])
    ensures
        final(stream)@ == old(stream)@ + bytes@,
{
    let mut i: usize = 0;
    while i < bytes.len()
        invariant
            i <= bytes.len(),
            stream@ == old(stream)@ + bytes@.subrange(0, i as int),
        decreases bytes.len() - i,
    {
        stream.push(bytes[i]);
        i += 1;
    }
}

/// Appends the UTF-8 bytes of a text to a buffer.
fn push_text(stream: &mut Vec<u8>, text: &str)
    ensures
        final(stream)@ == old(stream)@ + encode_utf8(text@),
{
    push_bytes(stream, text.as_bytes());
}

/// A complete response.
#[derive(Debug, PartialEq, Eq)]
pub struct HttpResponse {
    /// The response's status
    pub status: StatusCode,
    /// The response's version
    pub version: Version,
    /// The response's headers
    pub headers: Headers,
    /// The response's body
    pub body: Vec<u8>,
}

impl Clone for HttpResponse {
    fn clone(&self) -> (copy: Self)
        ensures
            copy.status == self.status,
            copy.version == self.version,
            copy.headers@ == self.headers@,
            copy.body@ == self.body@,
    {
        HttpResponse {
            status: self.status,
            version: self.version,
            headers: self.headers.clone(),
            body: self.body.clone(),
        }
    }
}

impl HttpResponse {
    /// A builder with the default status and version, no header and an empty
    /// body.
    pub fn builder() -> (builder: HttpResponseBuilder)
        ensures
            builder.status == StatusCode::OK,
            builder.version == Version::HTTP_11,
            builder.headers@ == Seq::<FieldView>::empty(),
            builder.body@ == Seq::<u8>::empty(),
    {
        HttpResponseBuilder::new()
    }

    /// The response as it goes on the wire.
    pub open spec fn wire_bytes(self) -> Seq<u8> {
        wire(self.status, self.headers@, self.body@)
    }

    /// Appends the wire form of the response to `stream`.
    pub fn write(self, stream: &mut Vec<u8>)
        ensures
            final(stream)@ == old(stream)@ + self.wire_bytes(),
    {
        let ghost fields = self.headers@;
        push_text(stream, "HTTP/1.1 ");
        push_text(stream, self.status.as_str());
        push_text(stream, "\r\n");
        let ghost head = stream@;
        let n = self.headers.len();
        let mut i: usize = 0;
        while i < n
            invariant
                i <= n,
                n == fields.len(),
                fields == self.headers@,
                stream@ == head + header_lines(fields.subrange(0, i as int)),
            decreases n - i,
        {
            let (name, value) = self.headers.field(i);
            push_text(stream, name);
            push_text(stream, ": ");
            push_text(stream, value);
            push_text(stream, "\r\n");
            i += 1;
            proof {
                let done = fields.subrange(0, i as int);
                assert(done.drop_last() =~= fields.subrange(0, i - 1));
            }
        }
        assert(fields.subrange(0, n as int) =~= fields);
        push_text(stream, "\r\n");
        push_bytes(stream, self.body.as_slice());
        push_text(stream, "\r\n");
    }
}

/// Convenient builder for [`HttpResponse`] values.
#[derive(Debug)]
pub struct HttpResponseBuilder {
    /// The response's status
    pub status: StatusCode,
    /// The response's version
    pub version: Version,
    /// The response's headers
    pub headers: Headers,
    /// The response's body
    pub body: Vec<u8>,
}

impl HttpResponseBuilder {
    /// A builder with the default status and version, no header and an empty
    /// body.
    pub fn new() -> (builder: Self)
        ensures
            builder.status == StatusCode::OK,
            builder.version == Version::HTTP_11,
            builder.headers@ == Seq::<FieldView>::empty(),
            builder.body@ == Seq::<u8>::empty(),
    {
        HttpResponseBuilder {
            status: StatusCode::OK,
            version: Version::HTTP_11,
            headers: Headers::new(),
            body: Vec::new(),
        }
    }

    /// Sets the status.
    pub fn status(self, code: StatusCode) -> (builder: Self)
        ensures
            builder.status == code,
            builder.version == self.version,
            builder.headers@ == self.headers@,
            builder.body@ == self.body@,
    {
        let mut builder = self;
        builder.status = code;
        builder
    }

    /// Sets a header field, replacing the value of a field of the same name.
    pub fn header(self, key: String, value: String) -> (builder: Self)
        ensures
            builder.status == self.status,
            builder.version == self.version,
            builder.headers@ == with_field(self.headers@, key@, value@),
            builder.body@ == self.body@,
    {
        let mut builder = self;
        builder.headers.insert(key, value);
        builder
    }

    /// Sets the body to the UTF-8 bytes of `content`.
    pub fn body(self, content: String) -> (builder: Self)
        ensures
            builder.status == self.status,
            builder.version == self.version,
            builder.headers@ == self.headers@,
            builder.body@ == encode_utf8(content@),
    {
        let mut builder = self;
        builder.body = content.as_str().as_bytes_vec();
        builder
    }

    /// Completes the response: the field `content-length` is set to the
    /// length of the body in decimal.
    pub fn finalize(self) -> (response: HttpResponse)
        ensures
            response.status == self.status,
            response.version == self.version,
            response.body@ == self.body@,
            response.headers@ == with_field(
                self.headers@,
                "content-length"@,
                decimal(self.body@.len()),
            ),
    {
        let mut builder = self;
        let n = builder.body.len();
        builder.headers.insert("content-length".to_owned(), decimal_string(n));
        HttpResponse {
            status: builder.status,
            version: builder.version,
            headers: builder.headers,
            body: builder.body,
        }
    }

    /// The status.
    pub fn get_status(&self) -> (status: &StatusCode)
        ensures
            *status == self.status,
    {
        &self.status
    }

    /// The status, to be changed in place.
    pub fn get_status_mut(&mut self) -> (status: &mut StatusCode)
        ensures
            *status == old(self).status,
            final(self).status == *final(status),
            final(self).version == old(self).version,
            final(self).headers == old(self).headers,
            final(self).body == old(self).body,
    {
        &mut self.status
    }

    /// The headers.
    pub fn get_headers(&self) -> (headers: &Headers)
        ensures
            *headers == self.headers,
    {
        &self.headers
    }

    /// The headers, to be changed in place.
    pub fn get_headers_mut(&mut self) -> (headers: &mut Headers)
        ensures
            *headers == old(self).headers,
            final(self).headers == *final(headers),
            final(self).status == old(self).status,
            final(self).version == old(self).version,
            final(self).body == old(self).body,
    {
        &mut self.headers
    }

    /// The body.
    pub fn get_body(&self) -> (body: &Vec<u8>)
        ensures
            *body == self.body,
    {
        &self.body
    }

    /// The body, to be changed in place.
    pub fn get_body_mut(&mut self) -> (body: &mut Vec<u8>)
        ensures
            *body == old(self).body,
            final(self).body == *final(body),
            final(self).status == old(self).status,
            final(self).version == old(self).version,
            final(self).headers == old(self).headers,
    {
        &mut self.body
    }
}

impl Default for HttpResponseBuilder {
    fn default() -> (builder: Self)
        ensures
            builder.status == StatusCode::OK,
            builder.version == Version::HTTP_11,
            builder.headers@ == Seq::<FieldView>::empty(),
            builder.body@ == Seq::<u8>::empty(),
    {
        HttpResponseBuilder::new()
    }
}

} // verus!
