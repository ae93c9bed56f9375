//! The requests that the client makes and the responses that it takes, as
//! plain values. Whoever holds the connection performs a [`PushRequest`] as
//! an HTTP `POST` and hands back the [`HttpResponse`].

use vstd::prelude::*;

verus! {

/// One HTTP `POST`: where it goes, its headers in order, and its body.
#[derive(Debug, PartialEq, Eq)]
pub struct PushRequest {
    pub url: String,
    pub headers: Vec<(String, String)>,
    pub body: Vec<u8>,
}

/// What a request holds.
pub struct PushRequestView {
    pub url: Seq<char>,
    pub headers: Seq<(Seq<char>, Seq<char>)>,
    pub body: Seq<u8>,
}

/// What a list of headers holds.
pub open spec fn headers_view(headers: Seq<(String, String)>) -> Seq<(Seq<char>, Seq<char>)> {
    headers.map_values(|h: (String, String)| (h.0@, h.1@))
}

impl View for PushRequest {
    type V = PushRequestView;

    open spec fn view(&self) -> PushRequestView {
        PushRequestView { url: self.url@, headers: headers_view(self.headers@), body: self.body@ }
    }
}

/// The status and the body of a response, after any decoding of its
/// content encoding.
#[derive(Debug, PartialEq, Eq)]
pub struct HttpResponse {
    pub status: u16,
    pub body: Vec<u8>,
}

/// What a response holds.
pub struct HttpResponseView {
    pub status: u16,
    pub body: Seq<u8>,
}

impl View for HttpResponse {
    type V = HttpResponseView;

    open spec fn view(&self) -> HttpResponseView {
        HttpResponseView { status: self.status, body: self.body@ }
    }
}

/// What the outcome of an exchange holds: a response, or none where the
/// exchange failed before one came back.
pub open spec fn outcome_view(outcome: Option<HttpResponse>) -> Option<HttpResponseView> {
    match outcome {
        Some(response) => Some(response@),
        None => None,
    }
}

/// Whether a status stands for success: 200 up to 299.
pub open spec fn is_success(status: u16) -> bool {
    200 <= status <= 299
}

/// The headers of a request. Every request accepts JSON, compressed with
/// gzip or deflate, and sends JSON. The credential, where there is one, goes
/// into `Authorization` as a bearer token. `Content-Encoding` is there
/// exactly when the body is compressed.
pub open spec fn request_headers(authorization: Option<Seq<char>>, gzipped: bool) -> Seq<
    (Seq<char>, Seq<char>),
> {
    let always = seq![
        ("Accept"@, "application/json"@),
        ("Accept-Encoding"@, "gzip"@),
        ("Accept-Encoding"@, "deflate"@),
        ("Content-Type"@, "application/json"@),
    ];
    let authorized = match authorization {
        Some(token) => always.push(("Authorization"@, "Bearer "@ + token)),
        None => always,
    };
    if gzipped {
        authorized.push(("Content-Encoding"@, "gzip"@))
    } else {
        authorized
    }
}

impl HttpResponse {
    /// Whether the status stands for success.
    pub fn is_success(&self) -> (res: bool)
        ensures
            res == is_success(self.status),
    {
        200 <= self.status && self.status <= 299
    }
}

/// Adds a header to a list.
fn push_header(headers: &mut Vec<(String, String)>, name: &str, value: String)
    ensures
        headers_view(final(headers)@) == headers_view(old(headers)@).push((name@, value@)),
{
    headers.push((name.to_owned(), value));
    assert(headers_view(headers@) =~= headers_view(old(headers)@).push((name@, value@)));
}

/// Makes the headers of a request.
pub fn make_headers(authorization: Option<&String>, gzipped: bool) -> (headers: Vec<(String, String)>)
    ensures
        headers_view(headers@) == request_headers(
            match authorization {
                Some(token) => Some(token@),
                None => None,
            },
            gzipped,
        ),
{
    let mut headers: Vec<(String, String)> = Vec::new();
    assert(headers_view(headers@) =~= Seq::empty());
    push_header(&mut headers, "Accept", "application/json".to_owned());
    push_header(&mut headers, "Accept-Encoding", "gzip".to_owned());
    push_header(&mut headers, "Accept-Encoding", "deflate".to_owned());
    push_header(&mut headers, "Content-Type", "application/json".to_owned());
    assert(headers_view(headers@) =~= seq![
        ("Accept"@, "application/json"@),
        ("Accept-Encoding"@, "gzip"@),
        ("Accept-Encoding"@, "deflate"@),
        ("Content-Type"@, "application/json"@),
    ]);
    if let Some(token) = authorization {
        push_header(&mut headers, "Authorization", String::from_str("Bearer ").concat(token.as_str()));
    }
    if gzipped {
        push_header(&mut headers, "Content-Encoding", "gzip".to_owned());
    }
    headers
}

} // verus!
