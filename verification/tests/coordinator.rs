use libstarwars::api_client::ApiClient;
use libstarwars::api_error::ApiError;
use libstarwars::http_client::{HttpClient, NetworkError};
use libstarwars::models::planets::Planet;
use libstarwars::repository::DataRepository;

/// Serves a fixed body and counts how often it is asked.
struct FixedTransport {
    body: Vec<u8>,
    calls: usize,
}

impl HttpClient for FixedTransport {
    fn fetch(&mut self, _url: &str) -> Result<Vec<u8>, NetworkError> {
        self.calls += 1;
        Ok(self.body.clone())
    }
}

/// Fails every request.
struct FailingTransport {
    calls: usize,
}

impl HttpClient for FailingTransport {
    fn fetch(&mut self, _url: &str) -> Result<Vec<u8>, NetworkError> {
        self.calls += 1;
        Err(NetworkError::Timeout)
    }
}

/// Panics when invoked: asserts that the cache answered.
struct ForbiddenTransport;

impl HttpClient for ForbiddenTransport {
    fn fetch(&mut self, _url: &str) -> Result<Vec<u8>, NetworkError> {
        panic!("the transport capability must not be invoked");
    }
}

fn coordinator_planet(url: &str, name: &str) -> Planet {
    Planet {
        name: name.to_string(),
        rotation_period: "23".to_string(),
        orbital_period: "304".to_string(),
        diameter: "10465".to_string(),
        climate: "arid".to_string(),
        gravity: "1 standard".to_string(),
        terrain: "desert".to_string(),
        surface_water: "1".to_string(),
        population: "200000".to_string(),
        residents: vec![],
        films: vec![],
        created: "2014-12-09".to_string(),
        edited: "2014-12-20".to_string(),
        url: url.to_string(),
    }
}

fn planet_record_json(name: &str, url: &str) -> String {
    format!(
        r#"{{"name":"{}","rotation_period":"23","orbital_period":"304","diameter":"10465","climate":"arid","gravity":"1 standard","terrain":"desert","surface_water":"1","population":"200000","residents":[],"films":[],"created":"2014-12-09","edited":"2014-12-20","url":"{}"}}"#,
        name, url
    )
}

fn planets_page_json(records: &[(&str, &str)]) -> Vec<u8> {
    let items: Vec<String> = records
        .iter()
        .map(|(name, url)| planet_record_json(name, url))
        .collect();
    format!(
        r#"{{"count":{},"next":null,"previous":null,"results":[{}]}}"#,
        records.len(),
        items.join(",")
    )
    .into_bytes()
}

#[test]
fn cached_item_fetch_never_touches_transport() {
    let mut repo = DataRepository::new();
    let tatooine = coordinator_planet("https://x/planets/1/", "Tatooine");
    repo.insert_planet(&tatooine);
    let mut client = ApiClient::new(ForbiddenTransport, repo);
    let got = client
        .fetch_planet("https://x/planets/1/".to_string())
        .expect("cache answers");
    assert_eq!(got, tatooine);
}

#[test]
fn cached_collection_fetch_never_touches_transport() {
    let mut repo = DataRepository::new();
    repo.insert_planet(&coordinator_planet("https://x/planets/1/", "Tatooine"));
    let mut client = ApiClient::new(ForbiddenTransport, repo);
    let got = client.fetch_planets(false).expect("cache answers");
    assert_eq!(got.len(), 1);
    assert_eq!(got[0].name, "Tatooine");
}

#[test]
fn bypass_flag_always_invokes_transport() {
    let mut repo = DataRepository::new();
    repo.insert_planet(&coordinator_planet("https://x/planets/9/", "Stale"));
    let body = planets_page_json(&[
        ("Naboo", "https://x/planets/3"),
        ("Hoth", "https://x/planets/1"),
    ]);
    let mut client = ApiClient::new(FixedTransport { body, calls: 0 }, repo);

    let fresh = client.fetch_planets(true).expect("transport answers");
    assert_eq!(client.http_client.calls, 1);
    // The fetched list arrives in page order, not cache order.
    assert_eq!(fresh.len(), 2);
    assert_eq!(fresh[0].name, "Naboo");
    assert_eq!(fresh[1].name, "Hoth");

    // The successful result repopulated the cache: a cache-first fetch now
    // serves the union, sorted by URL, without another transport call.
    let cached = client.fetch_planets(false).expect("cache answers");
    assert_eq!(client.http_client.calls, 1);
    let urls: Vec<&str> = cached.iter().map(|p| p.url.as_str()).collect();
    assert_eq!(
        urls,
        vec!["https://x/planets/1", "https://x/planets/3", "https://x/planets/9/"]
    );
}

#[test]
fn network_failure_passes_through_and_cache_is_untouched() {
    let mut repo = DataRepository::new();
    repo.insert_planet(&coordinator_planet("https://x/planets/1/", "Tatooine"));
    let mut client = ApiClient::new(FailingTransport { calls: 0 }, repo);
    let before = client.repository.get_planets();

    let err = client.fetch_planets(true).expect_err("transport fails");
    assert_eq!(err, ApiError::NetworkError(NetworkError::Timeout));
    let err = client
        .fetch_planet("https://x/planets/2/".to_string())
        .expect_err("transport fails");
    assert_eq!(err, ApiError::NetworkError(NetworkError::Timeout));

    let after = client.repository.get_planets();
    assert_eq!(before, after);
    assert_eq!(client.http_client.calls, 2);
}

/// Reports a failed request with a reason.
struct RefusingTransport;

impl HttpClient for RefusingTransport {
    fn fetch(&mut self, _url: &str) -> Result<Vec<u8>, NetworkError> {
        Err(NetworkError::RequestFailed {
            reason: "connection refused".to_string(),
        })
    }
}

#[test]
fn request_failed_passes_through_unchanged() {
    let mut client = ApiClient::new(RefusingTransport, DataRepository::new());
    let err = client.fetch_planets(false).expect_err("transport fails");
    assert_eq!(
        err,
        ApiError::NetworkError(NetworkError::RequestFailed {
            reason: "connection refused".to_string(),
        })
    );
}

#[test]
fn collection_fetch_populates_cache_for_item_lookup() {
    let body = planets_page_json(&[("Tatooine", "https://x/planets/1/")]);
    let mut client = ApiClient::new(
        FixedTransport { body, calls: 0 },
        DataRepository::new(),
    );

    let list = client.fetch_planets(false).expect("transport answers");
    assert_eq!(list.len(), 1);
    assert_eq!(list[0].name, "Tatooine");
    assert_eq!(client.http_client.calls, 1);

    // The cache now answers the item lookup without a further call.
    let item = client
        .fetch_planet("https://x/planets/1/".to_string())
        .expect("cache answers");
    assert_eq!(item, list[0]);
    assert_eq!(client.http_client.calls, 1);
    assert_eq!(
        client.repository.get_planet("https://x/planets/1/"),
        Some(item)
    );
}

#[test]
fn item_fetch_on_miss_fetches_and_caches() {
    let body = planet_record_json("Dagobah", "https://x/planets/5/").into_bytes();
    let mut client = ApiClient::new(
        FixedTransport { body, calls: 0 },
        DataRepository::new(),
    );
    let got = client
        .fetch_planet("https://x/planets/5/".to_string())
        .expect("transport answers");
    assert_eq!(got.name, "Dagobah");
    assert_eq!(client.http_client.calls, 1);
    // A second fetch is served from the cache.
    let again = client
        .fetch_planet("https://x/planets/5/".to_string())
        .expect("cache answers");
    assert_eq!(again, got);
    assert_eq!(client.http_client.calls, 1);
}

#[test]
fn malformed_body_yields_deserialization_error() {
    let mut client = ApiClient::new(
        FixedTransport { body: b"{".to_vec(), calls: 0 },
        DataRepository::new(),
    );
    let before = client.repository.get_planets();
    match client.fetch_planets(false) {
        Err(ApiError::DeserializationError { .. }) => {}
        other => panic!("expected a deserialization error, got {:?}", other),
    }
    assert_eq!(before, client.repository.get_planets());
}

#[test]
fn wrong_shape_yields_deserialization_error() {
    // A valid JSON document that is not a collection page.
    let body = br#"{"count":1,"next":null,"previous":null}"#.to_vec();
    let mut client = ApiClient::new(
        FixedTransport { body, calls: 0 },
        DataRepository::new(),
    );
    match client.fetch_planets(false) {
        Err(ApiError::DeserializationError { .. }) => {}
        other => panic!("expected a deserialization error, got {:?}", other),
    }
    // A record with a mistyped field is rejected too.
    let body = br#"{"count":1,"next":null,"previous":null,"results":[{"name":7}]}"#.to_vec();
    let mut client = ApiClient::new(
        FixedTransport { body, calls: 0 },
        DataRepository::new(),
    );
    match client.fetch_planets(false) {
        Err(ApiError::DeserializationError { .. }) => {}
        other => panic!("expected a deserialization error, got {:?}", other),
    }
}
