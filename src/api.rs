//! The client: its settings, and the request URL of each endpoint.

use std::sync::Arc;
use vstd::prelude::*;
use crate::error::FreecurrencyapiError;
use crate::query::{
    endpoint_address, lemma_values_named_push, values_named, Query, API_KEY_PARAM, BASE_CURRENCY_PARAM, CURRENCIES_PARAM,
    DATE_PARAM,
};

verus! {

/// The transport's client handle; clones share one connection pool.
#[verifier::external_type_specification]
#[verifier::external_body]
pub struct ExHttpClient(reqwest::Client);

/// Relies on `Clone` of `reqwest::Client`, which shares the connection pool;
/// nothing is stated of the copy, which the library only hands on.
pub assume_specification[ <reqwest::Client as Clone>::clone ](c: &reqwest::Client) -> reqwest::Client;

/// Relies on `reqwest::Client::builder` and `reqwest::ClientBuilder::build`:
/// a transport with the default configuration, or the transport's error where
/// it cannot be set up (the TLS backend fails to initialise).
#[verifier::external_body]
fn build_transport() -> (r: Result<reqwest::Client, reqwest::Error>) {
    reqwest::Client::builder().build()
}

/// The parameters of a `status` or `currencies` request: the API key alone.
pub open spec fn status_pairs(api_key: Seq<char>) -> Seq<(Seq<char>, Seq<char>)> {
    seq![(API_KEY_PARAM@, api_key)]
}

/// The parameters of a `latest` request, in the order in which they are sent.
pub open spec fn latest_pairs(
    api_key: Seq<char>,
    base_currency: Seq<char>,
    currencies: Seq<char>,
) -> Seq<(Seq<char>, Seq<char>)> {
    status_pairs(api_key).push((BASE_CURRENCY_PARAM@, base_currency)).push(
        (CURRENCIES_PARAM@, currencies),
    )
}

/// The parameters of a `historical` request, in the order in which they are sent.
pub open spec fn historical_pairs(
    api_key: Seq<char>,
    base_currency: Seq<char>,
    date: Seq<char>,
    currencies: Seq<char>,
) -> Seq<(Seq<char>, Seq<char>)> {
    status_pairs(api_key).push((BASE_CURRENCY_PARAM@, base_currency)).push(
        (DATE_PARAM@, date),
    ).push((CURRENCIES_PARAM@, currencies))
}

/// The four parameter names are distinct.
proof fn lemma_param_names_distinct()
    ensures
        API_KEY_PARAM@ != BASE_CURRENCY_PARAM@,
        API_KEY_PARAM@ != DATE_PARAM@,
        API_KEY_PARAM@ != CURRENCIES_PARAM@,
        BASE_CURRENCY_PARAM@ != DATE_PARAM@,
        BASE_CURRENCY_PARAM@ != CURRENCIES_PARAM@,
        DATE_PARAM@ != CURRENCIES_PARAM@,
{
    reveal_strlit("apikey");
    reveal_strlit("base_currency");
    reveal_strlit("date");
    reveal_strlit("currencies");
    assert(API_KEY_PARAM@.len() == 6);
    assert(BASE_CURRENCY_PARAM@.len() == 13);
    assert(DATE_PARAM@.len() == 4);
    assert(CURRENCIES_PARAM@.len() == 10);
}

/// Every request, of each of the four endpoints, carries exactly one `apikey`
/// parameter, and its value is the API key unchanged.
pub proof fn lemma_api_key_sent_once(
    api_key: Seq<char>,
    base_currency: Seq<char>,
    date: Seq<char>,
    currencies: Seq<char>,
)
    ensures
        values_named(status_pairs(api_key), API_KEY_PARAM@) == seq![api_key],
        values_named(latest_pairs(api_key, base_currency, currencies), API_KEY_PARAM@) == seq![
            api_key,
        ],
        values_named(
            historical_pairs(api_key, base_currency, date, currencies),
            API_KEY_PARAM@,
        ) == seq![api_key],
{
    lemma_param_names_distinct();
    lemma_request_values(api_key, base_currency, date, currencies, API_KEY_PARAM@);
}

/// The values of one parameter name in each request, from its parts.
proof fn lemma_request_values(
    api_key: Seq<char>,
    base_currency: Seq<char>,
    date: Seq<char>,
    currencies: Seq<char>,
    name: Seq<char>,
)
    ensures
        values_named(status_pairs(api_key), name) == if name == API_KEY_PARAM@ {
            seq![api_key]
        } else {
            Seq::<Seq<char>>::empty()
        },
        values_named(latest_pairs(api_key, base_currency, currencies), name) == values_named(
            status_pairs(api_key),
            name,
        ) + (if name == BASE_CURRENCY_PARAM@ {
            seq![base_currency]
        } else {
            Seq::<Seq<char>>::empty()
        }) + (if name == CURRENCIES_PARAM@ {
            seq![currencies]
        } else {
            Seq::<Seq<char>>::empty()
        }),
        values_named(historical_pairs(api_key, base_currency, date, currencies), name)
            == values_named(status_pairs(api_key), name) + (if name == BASE_CURRENCY_PARAM@ {
            seq![base_currency]
        } else {
            Seq::<Seq<char>>::empty()
        }) + (if name == DATE_PARAM@ {
            seq![date]
        } else {
            Seq::<Seq<char>>::empty()
        }) + (if name == CURRENCIES_PARAM@ {
            seq![currencies]
        } else {
            Seq::<Seq<char>>::empty()
        }),
{
    let empty = Seq::<(Seq<char>, Seq<char>)>::empty();
    let key_pair = (API_KEY_PARAM@, api_key);
    let base_pair = (BASE_CURRENCY_PARAM@, base_currency);
    assert(status_pairs(api_key) =~= empty.push(key_pair));
    lemma_values_named_push(empty, key_pair, name);
    let s = status_pairs(api_key);
    lemma_values_named_push(s, base_pair, name);
    lemma_values_named_push(s.push(base_pair), (CURRENCIES_PARAM@, currencies), name);
    lemma_values_named_push(s.push(base_pair), (DATE_PARAM@, date), name);
    lemma_values_named_push(
        s.push(base_pair).push((DATE_PARAM@, date)),
        (CURRENCIES_PARAM@, currencies),
        name,
    );
    assert(values_named(latest_pairs(api_key, base_currency, currencies), name) =~= values_named(
        status_pairs(api_key),
        name,
    ) + (if name == BASE_CURRENCY_PARAM@ {
        seq![base_currency]
    } else {
        Seq::<Seq<char>>::empty()
    }) + (if name == CURRENCIES_PARAM@ {
        seq![currencies]
    } else {
        Seq::<Seq<char>>::empty()
    }));
    assert(values_named(historical_pairs(api_key, base_currency, date, currencies), name)
        =~= values_named(status_pairs(api_key), name) + (if name == BASE_CURRENCY_PARAM@ {
        seq![base_currency]
    } else {
        Seq::<Seq<char>>::empty()
    }) + (if name == DATE_PARAM@ {
        seq![date]
    } else {
        Seq::<Seq<char>>::empty()
    }) + (if name == CURRENCIES_PARAM@ {
        seq![currencies]
    } else {
        Seq::<Seq<char>>::empty()
    }));
}

/// The `latest` and `historical` requests carry each caller-supplied
/// parameter exactly once, with the value exactly as given; `apikey` aside,
/// they carry no other parameter.
pub proof fn lemma_caller_values_kept(
    api_key: Seq<char>,
    base_currency: Seq<char>,
    date: Seq<char>,
    currencies: Seq<char>,
)
    ensures
        values_named(latest_pairs(api_key, base_currency, currencies), BASE_CURRENCY_PARAM@)
            == seq![base_currency],
        values_named(latest_pairs(api_key, base_currency, currencies), CURRENCIES_PARAM@)
            == seq![currencies],
        values_named(
            historical_pairs(api_key, base_currency, date, currencies),
            BASE_CURRENCY_PARAM@,
        ) == seq![base_currency],
        values_named(historical_pairs(api_key, base_currency, date, currencies), DATE_PARAM@)
            == seq![date],
        values_named(
            historical_pairs(api_key, base_currency, date, currencies),
            CURRENCIES_PARAM@,
        ) == seq![currencies],
        forall|name: Seq<char>|
            name != API_KEY_PARAM@ && name != BASE_CURRENCY_PARAM@ && name != CURRENCIES_PARAM@
                ==> #[trigger] values_named(
                latest_pairs(api_key, base_currency, currencies),
                name,
            ).len() == 0,
        forall|name: Seq<char>|
            name != API_KEY_PARAM@ && name != BASE_CURRENCY_PARAM@ && name != DATE_PARAM@ && name
                != CURRENCIES_PARAM@ ==> #[trigger] values_named(
                historical_pairs(api_key, base_currency, date, currencies),
                name,
            ).len() == 0,
{
    lemma_param_names_distinct();
    lemma_request_values(api_key, base_currency, date, currencies, BASE_CURRENCY_PARAM@);
    lemma_request_values(api_key, base_currency, date, currencies, DATE_PARAM@);
    lemma_request_values(api_key, base_currency, date, currencies, CURRENCIES_PARAM@);
    assert(values_named(latest_pairs(api_key, base_currency, currencies), BASE_CURRENCY_PARAM@)
        =~= seq![base_currency]);
    assert(values_named(latest_pairs(api_key, base_currency, currencies), CURRENCIES_PARAM@)
        =~= seq![currencies]);
    assert(values_named(
        historical_pairs(api_key, base_currency, date, currencies),
        BASE_CURRENCY_PARAM@,
    ) =~= seq![base_currency]);
    assert(values_named(historical_pairs(api_key, base_currency, date, currencies), DATE_PARAM@)
        =~= seq![date]);
    assert(values_named(
        historical_pairs(api_key, base_currency, date, currencies),
        CURRENCIES_PARAM@,
    ) =~= seq![currencies]);
    assert forall|name: Seq<char>|
        name != API_KEY_PARAM@ && name != BASE_CURRENCY_PARAM@ && name != CURRENCIES_PARAM@
            implies #[trigger] values_named(
            latest_pairs(api_key, base_currency, currencies),
            name,
        ).len() == 0 by {
        lemma_request_values(api_key, base_currency, date, currencies, name);
    }
    assert forall|name: Seq<char>|
        name != API_KEY_PARAM@ && name != BASE_CURRENCY_PARAM@ && name != DATE_PARAM@ && name
            != CURRENCIES_PARAM@ implies #[trigger] values_named(
            historical_pairs(api_key, base_currency, date, currencies),
            name,
        ).len() == 0 by {
        lemma_request_values(api_key, base_currency, date, currencies, name);
    }
}

/// The settings of a client: the API key, fixed at construction.
#[derive(Debug, Clone)]
pub struct Settings {
    api_key: String,
}

impl Settings {
    /// The API key.
    pub closed spec fn spec_api_key(&self) -> Seq<char> {
        self.api_key@
    }

    /// Settings that hold `api_key`.
    pub fn new(api_key: &str) -> (r: Settings)
        ensures
            r.spec_api_key() == api_key@,
    {
        Settings { api_key: String::from_str(api_key) }
    }

    /// The API key.
    pub fn api_key(&self) -> (r: &str)
        ensures
            r@ == self.spec_api_key(),
    {
        self.api_key.as_str()
    }
}

/// A client of the currency-exchange API. Clones share the transport and the
/// settings; neither changes after construction.
#[derive(Debug, Clone)]
pub struct Freecurrencyapi {
    client: reqwest::Client,
    settings: Arc<Settings>,
}

impl Freecurrencyapi {
    /// The API key that every request carries.
    pub closed spec fn spec_api_key(&self) -> Seq<char> {
        self.settings.spec_api_key()
    }

    /// A client that sends `api_key` with every request. Fails with
    /// `RequestError` where the transport cannot be set up.
    pub fn new(api_key: &str) -> (r: Result<Self, FreecurrencyapiError>)
        ensures
            r matches Ok(c) ==> c.spec_api_key() == api_key@,
            r matches Err(e) ==> e is RequestError,
    {
        let settings = Arc::new(Settings::new(api_key));
        match build_transport() {
            Ok(client) => Ok(Freecurrencyapi { client, settings }),
            Err(e) => Err(FreecurrencyapiError::RequestError { source: e }),
        }
    }

    /// The settings, shared by every clone of this client.
    pub fn settings(&self) -> (r: &Settings)
        ensures
            r.spec_api_key() == self.spec_api_key(),
    {
        &self.settings
    }

    /// The transport that requests are sent over.
    pub fn http_client(&self) -> &reqwest::Client {
        &self.client
    }

    /// The request of the `status` endpoint.
    pub fn status_query(&self) -> (r: Query)
        ensures
            r.spec_address() == endpoint_address(Some("status"@)),
            r.spec_pairs() == status_pairs(self.spec_api_key()),
    {
        Query::endpoint(self.settings.api_key(), Some("status"))
    }

    /// The request of the `currencies` endpoint.
    pub fn currencies_query(&self) -> (r: Query)
        ensures
            r.spec_address() == endpoint_address(Some("currencies"@)),
            r.spec_pairs() == status_pairs(self.spec_api_key()),
    {
        Query::endpoint(self.settings.api_key(), Some("currencies"))
    }

    /// The request of the `latest` endpoint: the rates of `currencies`
    /// against `base_currency`, both sent as given.
    pub fn latest_query(&self, base_currency: &str, currencies: &str) -> (r: Query)
        ensures
            r.spec_address() == endpoint_address(Some("latest"@)),
            r.spec_pairs() == latest_pairs(self.spec_api_key(), base_currency@, currencies@),
    {
        let mut q = Query::endpoint(self.settings.api_key(), Some("latest"));
        q.append_pair(BASE_CURRENCY_PARAM, base_currency);
        q.append_pair(CURRENCIES_PARAM, currencies);
        q
    }

    /// The request of the `historical` endpoint: the rates of `currencies`
    /// against `base_currency` on `date`, all sent as given.
    pub fn historical_query(&self, base_currency: &str, date: &str, currencies: &str) -> (r: Query)
        ensures
            r.spec_address() == endpoint_address(Some("historical"@)),
            r.spec_pairs() == historical_pairs(
                self.spec_api_key(),
                base_currency@,
                date@,
                currencies@,
            ),
    {
        let mut q = Query::endpoint(self.settings.api_key(), Some("historical"));
        q.append_pair(BASE_CURRENCY_PARAM, base_currency);
        q.append_pair(DATE_PARAM, date);
        q.append_pair(CURRENCIES_PARAM, currencies);
        q
    }
}

} // verus!
