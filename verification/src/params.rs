//! The optional filter fields of a request and the query they render to.

use vstd::prelude::*;

verus! {

/// The six filter fields as mathematical text. An empty field is unset.
pub struct ParameterSet {
    pub collections: Seq<char>,
    pub topics: Seq<char>,
    pub username: Seq<char>,
    pub query: Seq<char>,
    pub orientation: Seq<char>,
    pub content_filter: Seq<char>,
}

/// One rendered query pair: the parameter's name and its value.
pub type Pair = (Seq<char>, Seq<char>);

/// The pair of an optional field: nothing when the value is empty.
pub open spec fn optional_pair(name: Seq<char>, value: Seq<char>) -> Seq<Pair> {
    if value.len() == 0 {
        Seq::empty()
    } else {
        seq![(name, value)]
    }
}

impl ParameterSet {
    /// The orientation that is sent: the field itself, or `landscape` when
    /// the field is unset.
    pub open spec fn orientation_or_default(self) -> Seq<char> {
        if self.orientation.len() == 0 {
            "landscape"@
        } else {
            self.orientation
        }
    }

    /// The query that the fields render to: one pair for each field that is
    /// set, the orientation always, in the order collections, topics, query,
    /// username, orientation, content filter.
    pub open spec fn rendered(self) -> Seq<Pair> {
        optional_pair("collections"@, self.collections)
            + optional_pair("topics"@, self.topics)
            + optional_pair("query"@, self.query)
            + optional_pair("username"@, self.username)
            + seq![("orientation"@, self.orientation_or_default())]
            + optional_pair("content_filter"@, self.content_filter)
    }
}

/// The filter fields of one request. An empty string leaves a field unset.
#[derive(Debug)]
pub struct UnsplashParameters {
    pub collections: String,
    pub topics: String,
    pub username: String,
    pub query: String,
    pub orientation: String,
    pub content_filter: String,
}

impl View for UnsplashParameters {
    type V = ParameterSet;

    open spec fn view(&self) -> ParameterSet {
        ParameterSet {
            collections: self.collections@,
            topics: self.topics@,
            username: self.username@,
            query: self.query@,
            orientation: self.orientation@,
            content_filter: self.content_filter@,
        }
    }
}

impl UnsplashParameters {
    /// A parameter set with every field unset.
    pub fn new() -> (params: Self)
        ensures
            params@ == (ParameterSet {
                collections: Seq::empty(),
                topics: Seq::empty(),
                username: Seq::empty(),
                query: Seq::empty(),
                orientation: Seq::empty(),
                content_filter: Seq::empty(),
            }),
    {
        Self {
            collections: String::new(),
            topics: String::new(),
            username: String::new(),
            query: String::new(),
            orientation: String::new(),
            content_filter: String::new(),
        }
    }

    /// Renders the fields into the ordered query pairs of the request.
    pub fn get_query(&self) -> (query: Vec<(&str, String)>)
        ensures
            query.deep_view() == self@.rendered(),
    {
        let mut query: Vec<(&str, String)> = Vec::new();
        if !self.collections.as_str().is_empty() {
            query.push(("collections", self.collections.clone()));
        }
        if !self.topics.as_str().is_empty() {
            query.push(("topics", self.topics.clone()));
        }
        if !self.query.as_str().is_empty() {
            query.push(("query", self.query.clone()));
        }
        if !self.username.as_str().is_empty() {
            query.push(("username", self.username.clone()));
        }
        if !self.orientation.as_str().is_empty() {
            query.push(("orientation", self.orientation.clone()));
        } else {
            query.push(("orientation", "landscape".to_string()));
        }
        if !self.content_filter.as_str().is_empty() {
            query.push(("content_filter", self.content_filter.clone()));
        }
        query
    }
}

} // verus!
