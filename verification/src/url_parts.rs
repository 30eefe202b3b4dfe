use vstd::prelude::*;

verus! {

/// The parts of a parsed absolute URL that the link rules read: its scheme
/// (without the `:` delimiter) and its query string (without the `?`), if any.
#[derive(Debug, Clone, PartialEq, Eq)]
pub struct UrlParts {
    pub scheme: String,
    pub query: Option<String>,
}

impl View for UrlParts {
    type V = (Seq<char>, Option<Seq<char>>);

    open spec fn view(&self) -> (Seq<char>, Option<Seq<char>>) {
        (self.scheme@, match self.query {
            Some(q) => Some(q@),
            None => None,
        })
    }
}

/// What `url::Url::parse` makes of an input: `None` where it refuses the input,
/// else the scheme and query of the parsed URL.
pub uninterp spec fn parsed_url(input: Seq<char>) -> Option<(Seq<char>, Option<Seq<char>>)>;

/// The name/value pairs that `url::form_urlencoded::parse` decodes from a query.
pub uninterp spec fn form_pairs(query: Seq<char>) -> Seq<(Seq<char>, Seq<char>)>;

/// The characters of each pair of strings.
pub open spec fn pairs_view(pairs: Seq<(String, String)>) -> Seq<(Seq<char>, Seq<char>)> {
    Seq::new(pairs.len(), |i: int| (pairs[i].0@, pairs[i].1@))
}

/// Calls `url::Url::parse` and reads `scheme()` and `query()` of the result.
/// Trusted: the result is `parsed_url` of the input, a function of the input
/// alone; nothing is claimed about which inputs parse.
#[verifier::external_body]
pub(crate) fn parse_url(input: &str) -> (r: Option<UrlParts>)
    ensures
        match r {
            Some(parts) => parsed_url(input@) == Some(parts@),
            None => parsed_url(input@) is None,
        },
{
    match url::Url::parse(input) {
        Ok(parsed) => Some(UrlParts {
            scheme: parsed.scheme().to_string(),
            query: parsed.query().map(|q| q.to_string()),
        }),
        Err(_) => None,
    }
}

/// Calls `url::form_urlencoded::parse` on the bytes of `query` and collects
/// the decoded pairs in order. Trusted: the pairs are `form_pairs` of the
/// query, a function of the query alone; the decoding itself is not stated.
#[verifier::external_body]
pub(crate) fn decode_form_pairs(query: &str) -> (r: Vec<(String, String)>)
    ensures
        pairs_view(r@) == form_pairs(query@),
{
    url::form_urlencoded::parse(query.as_bytes()).into_owned().collect()
}

} // verus!
