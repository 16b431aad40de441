//! The formatter: it gives a response the headers that every response
//! carries, where the handler has not set them.

use crate::list_map::{key_index, lemma_key_index, lemma_key_index_is};
use crate::request::{HeaderName, HttpHeader, HttpHeaderMap};
use crate::response::{HttpResponse, ResponseView};
use crate::text::{decimal, decimal_text};
use vstd::prelude::*;

verus! {

/// The listing with `value` under `key` if the key has no entry yet, else as
/// it is.
pub open spec fn with_default(
    headers: Seq<(HeaderName, Seq<char>)>,
    key: HeaderName,
    value: Seq<char>,
) -> Seq<(HeaderName, Seq<char>)> {
    if key_index(headers, key, 0) < headers.len() {
        headers
    } else {
        headers.push((key, value))
    }
}

/// The headers of a formatted response: those of the response, and after
/// them, each only where the response has none of that name, the date, the
/// server's name, the content type of plain text and the length of the body.
pub open spec fn formatted_headers(
    headers: Seq<(HeaderName, Seq<char>)>,
    date: Seq<char>,
    body_length: nat,
) -> Seq<(HeaderName, Seq<char>)> {
    with_default(
        with_default(
            with_default(with_default(headers, HeaderName::Date, date), HeaderName::Server, "altaria"@),
            HeaderName::ContentType,
            "text/plain"@,
        ),
        HeaderName::ContentLength,
        decimal(body_length),
    )
}

/// The response as the formatter hands it on, for a given date.
pub open spec fn formatted(response: ResponseView, date: Seq<char>) -> ResponseView {
    ResponseView {
        status: response.status,
        headers: formatted_headers(response.headers, date, response.body.len()),
        body: response.body,
    }
}

/// Something that prepares a response for the wire.
pub trait HttpResponseFormatter {
    fn format(&self, response: HttpResponse) -> HttpResponse;
}

pub struct DefaultHttpResponseFormatter {}

/// `chrono::Utc::now`, written out by `DateTime::format` with the given
/// pattern: the present moment as a text. Nothing is claimed of the text.
#[verifier::external_body]
fn date_now(pattern: &str) -> String {
    let mut text = String::new();
    let _ = chrono::Utc::now().format(pattern).write_to(&mut text);
    text
}

impl DefaultHttpResponseFormatter {
    pub fn new() -> Self {
        DefaultHttpResponseFormatter {}
    }

    /// Sets a header unless it is set.
    pub fn insert_header_if_not_present(&self, key: HttpHeader, value: &str, headers: &mut HttpHeaderMap)
        ensures
            final(headers).listing() == with_default(old(headers).listing(), key@, value@),
    {
        if !headers.contains_key(&key) {
            headers.insert(key, value.to_owned());
        }
    }

    /// Formats a response, with `date` as the date of the answer.
    pub fn format_with_date(&self, response: HttpResponse, date: &str) -> (result: HttpResponse)
        ensures
            result@ == formatted(response@, date@),
    {
        let HttpResponse { status_code, headers, body } = response;
        let mut headers = headers;
        let length = decimal_text(body.len());
        self.insert_header_if_not_present(HttpHeader::Date, date, &mut headers);
        self.insert_header_if_not_present(HttpHeader::Server, "altaria", &mut headers);
        self.insert_header_if_not_present(HttpHeader::ContentType, "text/plain", &mut headers);
        self.insert_header_if_not_present(HttpHeader::ContentLength, length.as_str(), &mut headers);
        HttpResponse { status_code, headers, body }
    }
}

impl HttpResponseFormatter for DefaultHttpResponseFormatter {
    /// Formats a response, with the present moment as the date of the
    /// answer.
    fn format(&self, response: HttpResponse) -> (result: HttpResponse)
        ensures
            exists|date: Seq<char>| result@ == formatted(response@, date),
    {
        let date = date_now("%a, %d %b %Y %H:%M:%S GMT");
        let result = self.format_with_date(response, date.as_str());
        assert(result@ == formatted(response@, date@));
        result
    }
}

/// A header that is set keeps its value and its place when a default is
/// added, whatever the default is for.
pub proof fn lemma_with_default_keeps(
    headers: Seq<(HeaderName, Seq<char>)>,
    key: HeaderName,
    value: Seq<char>,
    i: int,
)
    requires
        0 <= i < headers.len(),
    ensures
        with_default(headers, key, value).len() >= headers.len(),
        with_default(headers, key, value)[i] == headers[i],
        key_index(with_default(headers, key, value), headers[i].0, 0) == key_index(
            headers,
            headers[i].0,
            0,
        ),
{
    let after = with_default(headers, key, value);
    let k = headers[i].0;
    lemma_key_index(headers, k, 0);
    let at = key_index(headers, k, 0);
    assert(at <= i) by {
        if at > i {
            assert(headers[i].0 != k);
        }
    }
    assert forall|j: int| 0 <= j < at implies (#[trigger] after[j]).0 != k by {
        assert(headers[j].0 != k);
    }
    lemma_key_index_is(after, k, 0, at);
}

/// Formatting leaves every header that the response carries as it is: a
/// response that has a date, a server, a content type and a content length
/// comes out with the same values for all four, and with no header more.
pub proof fn lemma_format_keeps_present(response: ResponseView, date: Seq<char>)
    ensures
        forall|i: int|
            0 <= i < response.headers.len() ==> #[trigger] formatted(response, date).headers[i]
                == response.headers[i],
        (key_index(response.headers, HeaderName::Date, 0) < response.headers.len() && key_index(
            response.headers,
            HeaderName::Server,
            0,
        ) < response.headers.len() && key_index(response.headers, HeaderName::ContentType, 0)
            < response.headers.len() && key_index(response.headers, HeaderName::ContentLength, 0)
            < response.headers.len()) ==> formatted(response, date) == response,
{
    let h0 = response.headers;
    let h1 = with_default(h0, HeaderName::Date, date);
    let h2 = with_default(h1, HeaderName::Server, "altaria"@);
    let h3 = with_default(h2, HeaderName::ContentType, "text/plain"@);
    assert forall|i: int| 0 <= i < h0.len() implies #[trigger] formatted(response, date).headers[i]
        == h0[i] by {
        lemma_with_default_keeps(h0, HeaderName::Date, date, i);
        lemma_with_default_keeps(h1, HeaderName::Server, "altaria"@, i);
        lemma_with_default_keeps(h2, HeaderName::ContentType, "text/plain"@, i);
        lemma_with_default_keeps(
            h3,
            HeaderName::ContentLength,
            decimal(response.body.len()),
            i,
        );
    }
}

/// Formatting twice is formatting once: the second time finds every default
/// set.
pub proof fn lemma_format_idempotent(response: ResponseView, first: Seq<char>, second: Seq<char>)
    ensures
        formatted(formatted(response, first), second) == formatted(response, first),
{
    let h0 = response.headers;
    let h1 = with_default(h0, HeaderName::Date, first);
    let h2 = with_default(h1, HeaderName::Server, "altaria"@);
    let h3 = with_default(h2, HeaderName::ContentType, "text/plain"@);
    let h4 = with_default(h3, HeaderName::ContentLength, decimal(response.body.len()));
    lemma_default_is_set(h0, HeaderName::Date, first);
    lemma_default_is_set(h1, HeaderName::Server, "altaria"@);
    lemma_default_is_set(h2, HeaderName::ContentType, "text/plain"@);
    lemma_default_is_set(h3, HeaderName::ContentLength, decimal(response.body.len()));
    lemma_set_stays_set(h1, HeaderName::Date, HeaderName::Server, "altaria"@);
    lemma_set_stays_set(h2, HeaderName::Date, HeaderName::ContentType, "text/plain"@);
    lemma_set_stays_set(h3, HeaderName::Date, HeaderName::ContentLength, decimal(response.body.len()));
    lemma_set_stays_set(h2, HeaderName::Server, HeaderName::ContentType, "text/plain"@);
    lemma_set_stays_set(h3, HeaderName::Server, HeaderName::ContentLength, decimal(response.body.len()));
    lemma_set_stays_set(h3, HeaderName::ContentType, HeaderName::ContentLength, decimal(response.body.len()));
    lemma_format_keeps_present(formatted(response, first), second);
}

/// After a default was added for a key, the key is set.
proof fn lemma_default_is_set(headers: Seq<(HeaderName, Seq<char>)>, key: HeaderName, value: Seq<char>)
    ensures
        key_index(with_default(headers, key, value), key, 0) < with_default(headers, key, value).len(),
{
    lemma_key_index(headers, key, 0);
    if key_index(headers, key, 0) >= headers.len() {
        let after = headers.push((key, value));
        assert forall|j: int| 0 <= j < headers.len() implies (#[trigger] after[j]).0 != key by {
            assert(headers[j].0 != key);
        }
        lemma_key_index_is(after, key, 0, headers.len() as int);
    }
}

/// A key that is set stays set when a default is added for another key.
proof fn lemma_set_stays_set(
    headers: Seq<(HeaderName, Seq<char>)>,
    key: HeaderName,
    other: HeaderName,
    value: Seq<char>,
)
    requires
        key_index(headers, key, 0) < headers.len(),
    ensures
        key_index(with_default(headers, other, value), key, 0) < with_default(
            headers,
            other,
            value,
        ).len(),
{
    lemma_key_index(headers, key, 0);
    lemma_with_default_keeps(headers, other, value, key_index(headers, key, 0));
}

} // verus!
