use freecurrencyapi::models::{interpret_response, parse_response, response_from_parsed};
use freecurrencyapi::query::url_from_rendered;
use freecurrencyapi::{Freecurrencyapi, FreecurrencyapiError, Query, Settings};

fn transport_error() -> reqwest::Error {
    reqwest::Client::new().get("not a url").build().unwrap_err()
}

fn query_values(url: &str, name: &str) -> Vec<String> {
    let parsed = reqwest::Url::parse(url).unwrap();
    parsed
        .query_pairs()
        .filter(|(k, _)| k == name)
        .map(|(_, v)| v.into_owned())
        .collect()
}

#[test]
fn settings_keep_the_key() {
    let s = Settings::new("my-key");
    assert_eq!(s.api_key(), "my-key");
    let api = Freecurrencyapi::new("other").unwrap();
    assert_eq!(api.settings().api_key(), "other");
}

#[test]
fn status_url_is_exact() {
    let api = Freecurrencyapi::new("KEY123").unwrap();
    assert_eq!(
        api.status_query().to_url().unwrap(),
        "https://api.freecurrencyapi.com/v1/status?apikey=KEY123"
    );
}

#[test]
fn currencies_url_is_exact() {
    let api = Freecurrencyapi::new("KEY123").unwrap();
    assert_eq!(
        api.currencies_query().to_url().unwrap(),
        "https://api.freecurrencyapi.com/v1/currencies?apikey=KEY123"
    );
}

#[test]
fn latest_url_is_exact() {
    let api = Freecurrencyapi::new("k").unwrap();
    assert_eq!(
        api.latest_query("USD", "EUR,GBP").to_url().unwrap(),
        "https://api.freecurrencyapi.com/v1/latest?apikey=k&base_currency=USD&currencies=EUR%2CGBP"
    );
}

#[test]
fn historical_url_is_exact() {
    let api = Freecurrencyapi::new("k").unwrap();
    assert_eq!(
        api.historical_query("EUR", "2022-01-01", "USD").to_url().unwrap(),
        "https://api.freecurrencyapi.com/v1/historical?apikey=k&base_currency=EUR&date=2022-01-01&currencies=USD"
    );
}

#[test]
fn base_address_without_endpoint() {
    let url = Query::endpoint("abc", None).to_url().unwrap();
    assert_eq!(url, "https://api.freecurrencyapi.com/v1/?apikey=abc");
}

#[test]
fn appended_pairs_follow_the_key() {
    let mut q = Query::endpoint("abc", Some("latest"));
    q.append_pair("x", "1");
    q.append_pair("x", "2");
    assert_eq!(
        q.to_url().unwrap(),
        "https://api.freecurrencyapi.com/v1/latest?apikey=abc&x=1&x=2"
    );
}

#[test]
fn every_request_carries_the_key_once() {
    for key in ["a", "key with space", "k&apikey=evil", "ключ"] {
        let api = Freecurrencyapi::new(key).unwrap();
        let urls = [
            api.status_query().to_url().unwrap(),
            api.currencies_query().to_url().unwrap(),
            api.latest_query("USD", "EUR").to_url().unwrap(),
            api.historical_query("USD", "2021-12-31", "EUR").to_url().unwrap(),
        ];
        for url in urls.iter() {
            assert_eq!(query_values(url, "apikey"), vec![key.to_string()]);
        }
    }
}

#[test]
fn caller_values_survive_encoding() {
    let api = Freecurrencyapi::new("k").unwrap();
    let base = "U S+D&=%";
    let date = "2020/01/01 ü";
    let currencies = "EUR,GBP;JPY#";
    let latest = api.latest_query(base, currencies).to_url().unwrap();
    assert_eq!(query_values(&latest, "base_currency"), vec![base.to_string()]);
    assert_eq!(query_values(&latest, "currencies"), vec![currencies.to_string()]);
    assert!(query_values(&latest, "date").is_empty());
    let historical = api.historical_query(base, date, currencies).to_url().unwrap();
    assert_eq!(query_values(&historical, "base_currency"), vec![base.to_string()]);
    assert_eq!(query_values(&historical, "date"), vec![date.to_string()]);
    assert_eq!(query_values(&historical, "currencies"), vec![currencies.to_string()]);
}

#[test]
fn transport_error_gives_request_error() {
    let r = interpret_response(Err(transport_error()));
    assert!(matches!(r, Err(FreecurrencyapiError::RequestError { .. })));
}

#[test]
fn invalid_json_gives_parsing_error_with_body() {
    let r = interpret_response(Ok("not valid json".to_string()));
    match r {
        Err(FreecurrencyapiError::ResponseParsingError { body }) => {
            assert_eq!(body, "not valid json")
        }
        other => panic!("unexpected result: {:?}", other),
    }
}

#[test]
fn non_object_json_gives_parsing_error() {
    for body in ["[1, 2]", "42", "\"text\"", "{\"a\": 1} trailing", ""] {
        match parse_response(body.to_string()) {
            Err(FreecurrencyapiError::ResponseParsingError { body: b }) => assert_eq!(b, body),
            other => panic!("unexpected result: {:?}", other),
        }
    }
}

#[test]
fn well_formed_body_is_parsed() {
    let r = interpret_response(Ok("{\"data\": {\"USD\": 1.0, \"EUR\": 0.9}}".to_string()));
    let resp = r.unwrap();
    assert_eq!(resp.fields.len(), 1);
    let data = resp.fields["data"].as_object().unwrap();
    assert_eq!(data.len(), 2);
    assert_eq!(data["USD"].as_f64(), Some(1.0));
    assert_eq!(data["EUR"].as_f64(), Some(0.9));
}

#[test]
fn parsed_fields_are_passed_through() {
    let mut fields = serde_json::Map::new();
    fields.insert("quotas".to_string(), serde_json::Value::Bool(false));
    let r = response_from_parsed("ignored".to_string(), Some(fields.clone()));
    assert_eq!(r.unwrap().fields, fields);
    match response_from_parsed("raw".to_string(), None) {
        Err(FreecurrencyapiError::ResponseParsingError { body }) => assert_eq!(body, "raw"),
        other => panic!("unexpected result: {:?}", other),
    }
}

#[test]
fn unparsable_address_gives_url_error() {
    match url_from_rendered("bad address".to_string(), None) {
        Err(FreecurrencyapiError::UrlConstructionError { url }) => assert_eq!(url, "bad address"),
        other => panic!("unexpected result: {:?}", other),
    }
    assert_eq!(
        url_from_rendered("a".to_string(), Some("https://x/".to_string())).unwrap(),
        "https://x/"
    );
}

#[test]
fn cloned_clients_build_the_same_requests() {
    let api = Freecurrencyapi::new("shared").unwrap();
    let other = api.clone();
    assert_eq!(
        api.status_query().to_url().unwrap(),
        other.status_query().to_url().unwrap()
    );
    assert_eq!(
        other.currencies_query().to_url().unwrap(),
        "https://api.freecurrencyapi.com/v1/currencies?apikey=shared"
    );
    assert_eq!(other.settings().api_key(), "shared");
}
