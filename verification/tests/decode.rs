use libstarwars::api_client::ApiClient;
use libstarwars::api_error::ApiError;
use libstarwars::http_client::{HttpClient, NetworkError};
use libstarwars::repository::DataRepository;

/// Serves a fixed body.
struct BodyTransport {
    body: Vec<u8>,
}

impl HttpClient for BodyTransport {
    fn fetch(&mut self, _url: &str) -> Result<Vec<u8>, NetworkError> {
        Ok(self.body.clone())
    }
}

fn client_for(body: &str) -> ApiClient<BodyTransport> {
    ApiClient::new(
        BodyTransport { body: body.as_bytes().to_vec() },
        DataRepository::new(),
    )
}

#[test]
fn person_with_homeworld_decodes() {
    let body = r#"{"birth_year":"19BBY","eye_color":"blue","films":["https://x/films/1/"],"gender":"male","hair_color":"blond","height":"172","homeworld":"https://x/planets/1/","mass":"77","name":"Luke Skywalker","skin_color":"fair","created":"2014","edited":"2014","species":[],"starships":["https://x/starships/12/"],"url":"https://x/people/1/","vehicles":["https://x/vehicles/14/"]}"#;
    let mut client = client_for(body);
    let person = client
        .fetch_person("https://x/people/1/".to_string())
        .expect("record decodes");
    assert_eq!(person.name, "Luke Skywalker");
    assert_eq!(person.homeworld, Some("https://x/planets/1/".to_string()));
    assert_eq!(person.films, vec!["https://x/films/1/".to_string()]);
    assert_eq!(person.starships, vec!["https://x/starships/12/".to_string()]);
    assert!(person.species.is_empty());
}

#[test]
fn person_homeworld_null_and_missing_become_absent() {
    let with_null = r#"{"birth_year":"b","eye_color":"e","films":[],"gender":"g","hair_color":"h","height":"1","homeworld":null,"mass":"m","name":"N","skin_color":"s","created":"c","edited":"d","species":[],"starships":[],"url":"https://x/people/2/","vehicles":[]}"#;
    let mut client = client_for(with_null);
    let person = client
        .fetch_person("https://x/people/2/".to_string())
        .expect("record decodes");
    assert_eq!(person.homeworld, None);

    let without_key = r#"{"birth_year":"b","eye_color":"e","films":[],"gender":"g","hair_color":"h","height":"1","mass":"m","name":"N","skin_color":"s","created":"c","edited":"d","species":[],"starships":[],"url":"https://x/people/3/","vehicles":[]}"#;
    let mut client = client_for(without_key);
    let person = client
        .fetch_person("https://x/people/3/".to_string())
        .expect("record decodes");
    assert_eq!(person.homeworld, None);
}

#[test]
fn starship_speed_rating_travels_under_all_caps_key() {
    let body = r#"{"name":"X-wing","model":"T-65 X-wing","manufacturer":"Incom","cost_in_credits":"149999","length":"12.5","max_atmosphering_speed":"1050","crew":"1","passengers":"0","cargo_capacity":"110","consumables":"1 week","hyperdrive_rating":"1.0","MGLT":"100","starship_class":"Starfighter","pilots":[],"films":[],"created":"2014","edited":"2014","url":"https://x/starships/12/"}"#;
    let mut client = client_for(body);
    let ship = client
        .fetch_starship("https://x/starships/12/".to_string())
        .expect("record decodes");
    assert_eq!(ship.mglt, "100");
    assert_eq!(ship.starship_class, "Starfighter");
}

#[test]
fn starship_with_lowercase_speed_key_is_rejected() {
    let body = r#"{"name":"X-wing","model":"T-65 X-wing","manufacturer":"Incom","cost_in_credits":"149999","length":"12.5","max_atmosphering_speed":"1050","crew":"1","passengers":"0","cargo_capacity":"110","consumables":"1 week","hyperdrive_rating":"1.0","mglt":"100","starship_class":"Starfighter","pilots":[],"films":[],"created":"2014","edited":"2014","url":"https://x/starships/12/"}"#;
    let mut client = client_for(body);
    match client.fetch_starship("https://x/starships/12/".to_string()) {
        Err(ApiError::DeserializationError { .. }) => {}
        other => panic!("expected a deserialization error, got {:?}", other),
    }
}

#[test]
fn film_with_negative_episode_id_decodes() {
    let body = r#"{"title":"Prequel","episode_id":-3,"opening_crawl":"...","director":"D","producer":"P","release_date":"1999-05-19","characters":[],"planets":[],"starships":[],"vehicles":[],"species":[],"created":"2014","edited":"2014","url":"https://x/films/4/"}"#;
    let mut client = client_for(body);
    let film = client
        .fetch_film("https://x/films/4/".to_string())
        .expect("record decodes");
    assert_eq!(film.episode_id, -3);
}

#[test]
fn film_with_fractional_episode_id_is_rejected() {
    let body = r#"{"title":"T","episode_id":4.5,"opening_crawl":"o","director":"D","producer":"P","release_date":"r","characters":[],"planets":[],"starships":[],"vehicles":[],"species":[],"created":"c","edited":"e","url":"https://x/films/9/"}"#;
    let mut client = client_for(body);
    match client.fetch_film("https://x/films/9/".to_string()) {
        Err(ApiError::DeserializationError { .. }) => {}
        other => panic!("expected a deserialization error, got {:?}", other),
    }
}

#[test]
fn species_and_vehicle_decode() {
    let body = r#"{"name":"Wookiee","classification":"mammal","designation":"sentient","average_height":"210","skin_colors":"gray","hair_colors":"black","eye_colors":"blue","average_lifespan":"400","homeworld":"https://x/planets/14/","language":"Shyriiwook","people":["https://x/people/13/"],"films":[],"created":"2014","edited":"2014","url":"https://x/species/3/"}"#;
    let mut client = client_for(body);
    let species = client
        .fetch_species("https://x/species/3/".to_string())
        .expect("record decodes");
    assert_eq!(species.language, "Shyriiwook");
    assert_eq!(species.people, vec!["https://x/people/13/".to_string()]);

    let body = r#"{"name":"Sand Crawler","model":"Digger Crawler","manufacturer":"Corellia","cost_in_credits":"150000","length":"36.8","max_atmosphering_speed":"30","crew":"46","passengers":"30","cargo_capacity":"50000","consumables":"2 months","vehicle_class":"wheeled","pilots":[],"films":[],"created":"2014","edited":"2014","url":"https://x/vehicles/4/"}"#;
    let mut client = client_for(body);
    let vehicle = client
        .fetch_vehicle("https://x/vehicles/4/".to_string())
        .expect("record decodes");
    assert_eq!(vehicle.vehicle_class, "wheeled");
}

#[test]
fn unknown_fields_are_ignored() {
    let body = r#"{"name":"Tatooine","rotation_period":"23","orbital_period":"304","diameter":"10465","climate":"arid","gravity":"1 standard","terrain":"desert","surface_water":"1","population":"200000","residents":[],"films":[],"created":"2014","edited":"2014","url":"https://x/planets/1/","surprise":["extra"]}"#;
    let mut client = client_for(body);
    let planet = client
        .fetch_planet("https://x/planets/1/".to_string())
        .expect("record decodes");
    assert_eq!(planet.name, "Tatooine");
}

#[test]
fn page_count_must_be_an_unsigned_integer() {
    let body = r#"{"count":"one","next":null,"previous":null,"results":[]}"#;
    let mut client = client_for(body);
    match client.fetch_people(false) {
        Err(ApiError::DeserializationError { .. }) => {}
        other => panic!("expected a deserialization error, got {:?}", other),
    }
    let body = r#"{"count":-2,"next":null,"previous":null,"results":[]}"#;
    let mut client = client_for(body);
    match client.fetch_people(false) {
        Err(ApiError::DeserializationError { .. }) => {}
        other => panic!("expected a deserialization error, got {:?}", other),
    }
}

#[test]
fn empty_page_fetch_leaves_cache_absent() {
    let body = r#"{"count":0,"next":null,"previous":null,"results":[]}"#;
    let mut client = client_for(body);
    let list = client.fetch_people(false).expect("page decodes");
    assert!(list.is_empty());
    assert!(client.repository.get_people().is_none());
}

#[test]
fn string_array_with_non_string_element_is_rejected() {
    let body = r#"{"name":"Tatooine","rotation_period":"23","orbital_period":"304","diameter":"10465","climate":"arid","gravity":"1 standard","terrain":"desert","surface_water":"1","population":"200000","residents":[7],"films":[],"created":"2014","edited":"2014","url":"https://x/planets/1/"}"#;
    let mut client = client_for(body);
    match client.fetch_planet("https://x/planets/1/".to_string()) {
        Err(ApiError::DeserializationError { .. }) => {}
        other => panic!("expected a deserialization error, got {:?}", other),
    }
}

fn page(record_json: &str) -> String {
    format!(
        r#"{{"count":1,"next":null,"previous":null,"results":[{}]}}"#,
        record_json
    )
}

#[test]
fn every_collection_endpoint_decodes_and_caches() {
    let film = r#"{"title":"A New Hope","episode_id":4,"opening_crawl":"...","director":"George Lucas","producer":"Gary Kurtz","release_date":"1977-05-25","characters":[],"planets":[],"starships":[],"vehicles":[],"species":[],"created":"2014","edited":"2014","url":"https://x/films/1/"}"#;
    let mut client = client_for(&page(film));
    let films = client.fetch_films(false).expect("page decodes");
    assert_eq!(films.len(), 1);
    assert_eq!(films[0].title, "A New Hope");
    assert_eq!(client.repository.get_films().unwrap()[0], films[0]);

    let species = r#"{"name":"Wookiee","classification":"mammal","designation":"sentient","average_height":"210","skin_colors":"gray","hair_colors":"black","eye_colors":"blue","average_lifespan":"400","homeworld":null,"language":"Shyriiwook","people":[],"films":[],"created":"2014","edited":"2014","url":"https://x/species/3/"}"#;
    let mut client = client_for(&page(species));
    let all = client.fetch_species_list(false).expect("page decodes");
    assert_eq!(all.len(), 1);
    assert_eq!(all[0].name, "Wookiee");

    let ship = r#"{"name":"X-wing","model":"T-65","manufacturer":"Incom","cost_in_credits":"149999","length":"12.5","max_atmosphering_speed":"1050","crew":"1","passengers":"0","cargo_capacity":"110","consumables":"1 week","hyperdrive_rating":"1.0","MGLT":"100","starship_class":"Starfighter","pilots":[],"films":[],"created":"2014","edited":"2014","url":"https://x/starships/12/"}"#;
    let mut client = client_for(&page(ship));
    let ships = client.fetch_starships(false).expect("page decodes");
    assert_eq!(ships[0].mglt, "100");

    let vehicle = r#"{"name":"Sand Crawler","model":"Digger Crawler","manufacturer":"Corellia","cost_in_credits":"150000","length":"36.8","max_atmosphering_speed":"30","crew":"46","passengers":"30","cargo_capacity":"50000","consumables":"2 months","vehicle_class":"wheeled","pilots":[],"films":[],"created":"2014","edited":"2014","url":"https://x/vehicles/4/"}"#;
    let mut client = client_for(&page(vehicle));
    let vehicles = client.fetch_vehicles(false).expect("page decodes");
    assert_eq!(vehicles[0].vehicle_class, "wheeled");

    let person = r#"{"birth_year":"b","eye_color":"e","films":[],"gender":"g","hair_color":"h","height":"1","homeworld":null,"mass":"m","name":"Leia","skin_color":"s","created":"c","edited":"d","species":[],"starships":[],"url":"https://x/people/5/","vehicles":[]}"#;
    let mut client = client_for(&page(person));
    let people = client.fetch_people(false).expect("page decodes");
    assert_eq!(people[0].name, "Leia");
    assert_eq!(
        client.repository.get_person("https://x/people/5/").unwrap(),
        people[0]
    );
}
