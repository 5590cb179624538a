//! Caller-facing request options and the structured response and error
//! shapes that one fetch produces.

use vstd::prelude::*;

verus! {

/// HTTP method of an outgoing request.
#[derive(Debug, Clone, PartialEq, Eq)]
pub enum Method {
    Get,
    Head,
    Post,
    Put,
    Delete,
    Patch,
    Other(String),
}

/// The method used when the caller supplies none.
pub fn default_method() -> (m: Method)
    ensures
        m == Method::Get,
{
    Method::Get
}

/// How the response body is materialized: raw bytes, decoded text, or not
/// read at all.
#[derive(Debug, Clone, Copy, PartialEq, Eq, Structural)]
pub enum PayloadType {
    Binary,
    Text,
    Discard,
}

/// A request or response body.
#[derive(Debug, Clone, PartialEq, Eq)]
pub enum Body {
    Binary(Vec<u8>),
    Text(String),
}

/// The abstract value of a body: its bytes, or its characters.
pub enum BodyModel {
    Binary(Seq<u8>),
    Text(Seq<char>),
}

impl View for Body {
    type V = BodyModel;

    open spec fn view(&self) -> BodyModel {
        match self {
            Body::Binary(bytes) => BodyModel::Binary(bytes@),
            Body::Text(text) => BodyModel::Text(text@),
        }
    }
}

/// The abstract value of an optional body.
pub open spec fn opt_body_model(b: Option<Body>) -> Option<BodyModel> {
    match b {
        Some(body) => Some(body@),
        None => None,
    }
}

/// The abstract value of a list of (name, value) pairs.
pub open spec fn pairs_model(s: Seq<(String, String)>) -> Seq<(Seq<char>, Seq<char>)> {
    s.map_values(|p: (String, String)| (p.0@, p.1@))
}

impl Method {
    /// A copy of the method, equal to the original.
    pub fn duplicate(&self) -> (m: Method)
        ensures
            m == *self,
    {
        match self {
            Method::Get => Method::Get,
            Method::Head => Method::Head,
            Method::Post => Method::Post,
            Method::Put => Method::Put,
            Method::Delete => Method::Delete,
            Method::Patch => Method::Patch,
            Method::Other(s) => Method::Other(s.clone()),
        }
    }
}

impl Body {
    /// A copy of the body, with the same abstract value.
    pub fn duplicate(&self) -> (b: Body)
        ensures
            b@ == self@,
    {
        match self {
            Body::Binary(bytes) => {
                let copy = bytes.clone();
                proof {
                    assert(copy@ =~= bytes@);
                }
                Body::Binary(copy)
            },
            Body::Text(text) => Body::Text(text.clone()),
        }
    }
}

/// A copy of an optional body, with the same abstract value.
pub fn duplicate_opt_body(b: &Option<Body>) -> (r: Option<Body>)
    ensures
        opt_body_model(r) == opt_body_model(*b),
{
    match b {
        Some(body) => Some(body.duplicate()),
        None => None,
    }
}

/// A multi-valued header map: one entry per (name, value) occurrence, in
/// insertion order.
#[derive(Debug, Clone, PartialEq, Eq)]
pub struct HeaderMap {
    pub entries: Vec<(String, String)>,
}

impl View for HeaderMap {
    type V = Seq<(Seq<char>, Seq<char>)>;

    open spec fn view(&self) -> Seq<(Seq<char>, Seq<char>)> {
        self.entries@.map_values(|p: (String, String)| (p.0@, p.1@))
    }
}

impl HeaderMap {
    /// An empty header map.
    pub fn new() -> (h: HeaderMap)
        ensures
            h@ == Seq::<(Seq<char>, Seq<char>)>::empty(),
    {
        let h = HeaderMap { entries: Vec::new() };
        proof {
            assert(h@ =~= Seq::<(Seq<char>, Seq<char>)>::empty());
        }
        h
    }

    /// Appends one occurrence of a header; earlier occurrences of the same
    /// name are kept.
    pub fn append(&mut self, name: String, value: String)
        ensures
            final(self)@ == old(self)@.push((name@, value@)),
    {
        let ghost n = name@;
        let ghost v = value@;
        self.entries.push((name, value));
        proof {
            assert(self@ =~= old(self)@.push((n, v)));
        }
    }

    /// The number of (name, value) entries.
    pub fn len(&self) -> (n: usize)
        ensures
            n == self@.len(),
    {
        self.entries.len()
    }

    /// A copy of the header map, with the same abstract value.
    pub fn duplicate(&self) -> (h: HeaderMap)
        ensures
            h@ == self@,
    {
        let mut entries: Vec<(String, String)> = Vec::new();
        let mut k: usize = 0;
        while k < self.entries.len()
            invariant
                0 <= k <= self.entries.len(),
                entries@.len() == k,
                forall|i: int|
                    0 <= i < k ==> (#[trigger] entries@[i]).0@ == self.entries@[i].0@
                        && entries@[i].1@ == self.entries@[i].1@,
            decreases self.entries.len() - k,
        {
            let pair = &self.entries[k];
            entries.push((pair.0.clone(), pair.1.clone()));
            k = k + 1;
        }
        let h = HeaderMap { entries };
        proof {
            assert(h@ =~= self@);
        }
        h
    }

    /// The entries, for handing the headers to a transport.
    pub fn entries(&self) -> (r: &Vec<(String, String)>)
        ensures
            r@.map_values(|p: (String, String)| (p.0@, p.1@)) == self@,
    {
        &self.entries
    }
}

/// The structured failure a fetch returns: the offending URL when known, and
/// a human-readable message.
#[derive(Debug, Clone, PartialEq, Eq)]
pub struct Error {
    pub url: Option<String>,
    pub message: String,
}

impl Error {
    /// An error with no URL context, carrying only a description.
    pub fn from_std_error(message: String) -> (e: Error)
        ensures
            e.url is None,
            e.message == message,
    {
        Error { url: None, message }
    }
}

} // verus!
