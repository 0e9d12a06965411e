//! Requests to outside services.

use vstd::prelude::*;

verus! {

/// How a request is sent: with its pairs in the query, or as a form.
#[derive(Debug, Clone, Copy, PartialEq, Eq, Structural)]
pub enum Method {
    Get,
    Post,
}

/// A request to an outside service.
#[derive(Debug)]
pub struct Call {
    pub method: Method,
    pub url: String,
    pub pairs: Vec<(String, String)>,
}

/// A request over sequences of characters.
pub struct CallView {
    pub method: Method,
    pub url: Seq<char>,
    pub pairs: Seq<(Seq<char>, Seq<char>)>,
}

/// Names and values over sequences of characters.
pub open spec fn pairs_view(pairs: Seq<(String, String)>) -> Seq<(Seq<char>, Seq<char>)> {
    pairs.map_values(|p: (String, String)| (p.0@, p.1@))
}

impl View for Call {
    type V = CallView;

    open spec fn view(&self) -> CallView {
        CallView {
            method: self.method,
            url: self.url@,
            pairs: pairs_view(self.pairs@),
        }
    }
}

impl Call {
    /// A request without names and values.
    pub fn new(method: Method, url: String) -> (r: Self)
        ensures
            r@ == (CallView { method, url: url@, pairs: Seq::empty() }),
    {
        let r = Call { method, url, pairs: Vec::new() };
        assert(r@.pairs =~= Seq::empty());
        r
    }

    /// The request with one more name and value.
    pub fn with(self, name: &str, value: &str) -> (r: Self)
        ensures
            r@ == (CallView { pairs: self@.pairs.push((name@, value@)), ..self@ }),
    {
        let mut pairs = self.pairs;
        pairs.push((name.to_string(), value.to_string()));
        let r = Call { method: self.method, url: self.url, pairs };
        assert(r@.pairs =~= self@.pairs.push((name@, value@)));
        r
    }
}

} // verus!
