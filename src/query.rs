//! Request URLs: a base address plus an ordered list of query parameters.

use vstd::prelude::*;
use crate::error::FreecurrencyapiError;

verus! {

/// The address that every endpoint path is appended to.
pub const BASE_URL: &'static str = "https://api.freecurrencyapi.com/v1/";

/// Query parameter that carries the API key.
pub const API_KEY_PARAM: &'static str = "apikey";

/// Query parameter that carries the base currency.
pub const BASE_CURRENCY_PARAM: &'static str = "base_currency";

/// Query parameter that carries the list of target currencies.
pub const CURRENCIES_PARAM: &'static str = "currencies";

/// Query parameter that carries the date of historical rates.
pub const DATE_PARAM: &'static str = "date";

/// The mathematical view of a query parameter list.
pub open spec fn pairs_view(pairs: Seq<(String, String)>) -> Seq<(Seq<char>, Seq<char>)> {
    pairs.map_values(|p: (String, String)| (p.0@, p.1@))
}

/// The values, in order, of every parameter called `name`.
pub open spec fn values_named(pairs: Seq<(Seq<char>, Seq<char>)>, name: Seq<char>) -> Seq<Seq<char>>
    decreases pairs.len(),
{
    if pairs.len() == 0 {
        Seq::empty()
    } else {
        let rest = values_named(pairs.drop_last(), name);
        if pairs.last().0 == name {
            rest.push(pairs.last().1)
        } else {
            rest
        }
    }
}

/// Appending a parameter appends its value to those of its name, and leaves
/// those of every other name as they were.
pub proof fn lemma_values_named_push(
    pairs: Seq<(Seq<char>, Seq<char>)>,
    pair: (Seq<char>, Seq<char>),
    name: Seq<char>,
)
    ensures
        values_named(pairs.push(pair), name) == if pair.0 == name {
            values_named(pairs, name).push(pair.1)
        } else {
            values_named(pairs, name)
        },
{
    assert(pairs.push(pair).drop_last() =~= pairs);
}

/// The address of an endpoint: the base address, followed by the path segment if any.
pub open spec fn endpoint_address(endpoint: Option<Seq<char>>) -> Seq<char> {
    match endpoint {
        Some(e) => BASE_URL@ + e,
        None => BASE_URL@,
    }
}

/// What `url::Url` makes of an address and a list of parameters appended to its
/// query with the `application/x-www-form-urlencoded` serializer: `None` where
/// the address does not parse as an absolute URL.
pub uninterp spec fn url_with_query(
    address: Seq<char>,
    pairs: Seq<(Seq<char>, Seq<char>)>,
) -> Option<Seq<char>>;

/// Relies on `reqwest::Url::parse` (re-exported from the `url` crate), then on
/// `Url::query_pairs_mut` and `form_urlencoded::Serializer::extend_pairs`
/// to append the parameters, and `Url::as_str` for the text of the result.
#[verifier::external_body]
fn render_url(address: &str, pairs: &Vec<(String, String)>) -> (r: Option<String>)
    ensures
        match r {
            Some(s) => url_with_query(address@, pairs_view(pairs@)) == Some(s@),
            None => url_with_query(address@, pairs_view(pairs@)) is None,
        },
{
    match reqwest::Url::parse(address) {
        Ok(mut url) => {
            url.query_pairs_mut().extend_pairs(pairs.iter());
            Some(url.as_str().to_string())
        },
        Err(_) => None,
    }
}

/// A request URL before it is rendered: an address and its query parameters in
/// the order in which they were appended.
pub struct Query {
    address: String,
    pairs: Vec<(String, String)>,
}

impl Query {
    /// The address, without its query.
    pub closed spec fn spec_address(&self) -> Seq<char> {
        self.address@
    }

    /// The query parameters, in order.
    pub closed spec fn spec_pairs(&self) -> Seq<(Seq<char>, Seq<char>)> {
        pairs_view(self.pairs@)
    }

    /// The URL of an endpoint (or of the base address when `endpoint` is
    /// `None`) with the API key as its one query parameter.
    pub fn endpoint(api_key: &str, endpoint: Option<&str>) -> (r: Query)
        ensures
            r.spec_address() == endpoint_address(
                match endpoint {
                    Some(e) => Some(e@),
                    None => None,
                },
            ),
            r.spec_pairs() == seq![(API_KEY_PARAM@, api_key@)],
    {
        let address = match endpoint {
            Some(e) => String::from_str(BASE_URL).concat(e),
            None => String::from_str(BASE_URL),
        };
        let mut pairs: Vec<(String, String)> = Vec::new();
        pairs.push((String::from_str(API_KEY_PARAM), String::from_str(api_key)));
        proof {
            assert(pairs_view(pairs@) =~= seq![(API_KEY_PARAM@, api_key@)]);
        }
        Query { address, pairs }
    }

    /// Appends one parameter after those already there.
    pub fn append_pair(&mut self, name: &str, value: &str)
        ensures
            final(self).spec_address() == old(self).spec_address(),
            final(self).spec_pairs() == old(self).spec_pairs().push((name@, value@)),
    {
        self.pairs.push((String::from_str(name), String::from_str(value)));
        proof {
            assert(pairs_view(self.pairs@) =~= pairs_view(old(self).pairs@).push((name@, value@)));
        }
    }

    /// The text of the URL, or `UrlConstructionError` carrying the address
    /// where it is not a valid absolute URL.
    pub fn to_url(&self) -> (r: Result<String, FreecurrencyapiError>)
        ensures
            match url_with_query(self.spec_address(), self.spec_pairs()) {
                Some(s) => r matches Ok(u) && u@ == s,
                None => r matches Err(FreecurrencyapiError::UrlConstructionError { url }) && url@
                    == self.spec_address(),
            },
    {
        let rendered = render_url(self.address.as_str(), &self.pairs);
        url_from_rendered(self.address.clone(), rendered)
    }
}

/// The result of URL construction, given what the URL parser made of
/// `address` and its parameters: the text, or `UrlConstructionError`
/// carrying the address.
pub fn url_from_rendered(address: String, rendered: Option<String>) -> (r: Result<
    String,
    FreecurrencyapiError,
>)
    ensures
        match rendered {
            Some(s) => r matches Ok(u) && u@ == s@,
            None => r matches Err(FreecurrencyapiError::UrlConstructionError { url }) && url@
                == address@,
        },
{
    match rendered {
        Some(s) => Ok(s),
        None => Err(FreecurrencyapiError::UrlConstructionError { url: address }),
    }
}

} // verus!
