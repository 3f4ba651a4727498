//! What is sent to the provider for one random photo.

use crate::params::Pair;
use vstd::prelude::*;

verus! {

/// The endpoint that answers with one random photo.
pub const API_URL: &'static str = "https://api.unsplash.com/photos/random";

/// The name of the header that carries the API key.
pub const AUTHORIZATION: &'static str = "Authorization";

/// The value of the authorization header for an API key.
pub open spec fn client_id(api_key: Seq<char>) -> Seq<char> {
    "Client-ID "@ + api_key
}

/// One GET request as mathematical text.
pub struct RequestView {
    pub url: Seq<char>,
    pub query: Seq<Pair>,
    pub header: Pair,
}

/// One GET request to the provider: the address, the query pairs in the
/// order in which they are attached, and the one header.
#[derive(Debug)]
pub struct PhotoRequest<'a> {
    pub url: &'a str,
    pub query: Vec<(&'a str, String)>,
    pub header: (&'a str, String),
}

impl<'a> View for PhotoRequest<'a> {
    type V = RequestView;

    open spec fn view(&self) -> RequestView {
        RequestView {
            url: self.url@,
            query: self.query.deep_view(),
            header: (self.header.0@, self.header.1@),
        }
    }
}

/// The request for one random photo: a GET to [`API_URL`] with `query`
/// attached as it is and the header `Authorization: Client-ID <api_key>`.
pub fn photo_request<'a>(api_key: &str, query: Vec<(&'a str, String)>) -> (request: PhotoRequest<
    'a,
>)
    ensures
        request@ == (RequestView {
            url: API_URL@,
            query: query.deep_view(),
            header: (AUTHORIZATION@, client_id(api_key@)),
        }),
{
    let value = "Client-ID ".to_string().concat(api_key);
    PhotoRequest { url: API_URL, query, header: (AUTHORIZATION, value) }
}

} // verus!
