//! What is sent to a backend, as plain values, and how its status is read.

use vstd::prelude::*;

verus! {

/// A POST request ready to be sent: where to, with which headers, and the JSON
/// text to send.
#[derive(Debug)]
pub struct HttpRequest {
    /// The address of the endpoint.
    pub url: String,
    /// The headers, each a name and a value, in order.
    pub headers: Vec<(String, String)>,
    /// The body.
    pub body: String,
}

/// The content of an [`HttpRequest`].
pub struct HttpRequestView {
    pub url: Seq<char>,
    pub headers: Seq<(Seq<char>, Seq<char>)>,
    pub body: Seq<char>,
}

impl View for HttpRequest {
    type V = HttpRequestView;

    open spec fn view(&self) -> HttpRequestView {
        HttpRequestView {
            url: self.url@,
            headers: self.headers.deep_view(),
            body: self.body@,
        }
    }
}

impl DeepView for HttpRequest {
    type V = HttpRequestView;

    open spec fn deep_view(&self) -> HttpRequestView {
        self@
    }
}

/// Whether a status code reports success: the codes from 200 to 299.
pub open spec fn is_success(status: u16) -> bool {
    200 <= status < 300
}

/// Whether a status code reports success.
pub fn status_is_success(status: u16) -> (r: bool)
    ensures
        r == is_success(status),
{
    200 <= status && status < 300
}

} // verus!
