use libstarwars::models::planets::Planet;
use libstarwars::repository::DataRepository;

fn sample_planet(url: &str, name: &str) -> Planet {
    Planet {
        name: name.to_string(),
        rotation_period: "23".to_string(),
        orbital_period: "304".to_string(),
        diameter: "10465".to_string(),
        climate: "arid".to_string(),
        gravity: "1 standard".to_string(),
        terrain: "desert".to_string(),
        surface_water: "1".to_string(),
        population: "200000".to_string(),
        residents: vec![],
        films: vec![],
        created: "2014-12-09".to_string(),
        edited: "2014-12-20".to_string(),
        url: url.to_string(),
    }
}

#[test]
fn upsert_same_url_twice_keeps_last() {
    let mut repo = DataRepository::new();
    let first = sample_planet("https://x/planets/1/", "Tatooine");
    let second = sample_planet("https://x/planets/1/", "Alderaan");
    repo.insert_planet(&first);
    repo.insert_planet(&second);
    let all = repo.get_planets().expect("one record stored");
    assert_eq!(all.len(), 1);
    assert_eq!(all[0], second);
    assert_eq!(repo.get_planet("https://x/planets/1/"), Some(second));
}

#[test]
fn get_all_absent_versus_one_element() {
    let mut repo = DataRepository::new();
    assert!(repo.get_planets().is_none());
    repo.insert_planet(&sample_planet("https://x/planets/1/", "Tatooine"));
    let all = repo.get_planets().expect("one record stored");
    assert_eq!(all.len(), 1);
    assert_eq!(all[0].name, "Tatooine");
}

#[test]
fn get_all_sorted_by_url() {
    let mut repo = DataRepository::new();
    repo.insert_planet(&sample_planet("https://x/planets/3", "Three"));
    repo.insert_planet(&sample_planet("https://x/planets/1", "One"));
    repo.insert_planet(&sample_planet("https://x/planets/2", "Two"));
    let all = repo.get_planets().expect("three records stored");
    let urls: Vec<&str> = all.iter().map(|p| p.url.as_str()).collect();
    assert_eq!(
        urls,
        vec!["https://x/planets/1", "https://x/planets/2", "https://x/planets/3"]
    );
}

#[test]
fn get_planet_absent_url_is_none() {
    let mut repo = DataRepository::new();
    repo.insert_planet(&sample_planet("https://x/planets/1/", "Tatooine"));
    assert!(repo.get_planet("https://x/planets/2/").is_none());
}

#[test]
fn kinds_are_independent() {
    let mut repo = DataRepository::new();
    repo.insert_planet(&sample_planet("https://x/planets/1/", "Tatooine"));
    assert!(repo.get_people().is_none());
    assert!(repo.get_films().is_none());
    assert!(repo.get_species_list().is_none());
    assert!(repo.get_starships().is_none());
    assert!(repo.get_vehicles().is_none());
}

#[test]
fn default_repository_is_empty() {
    let repo = DataRepository::default();
    assert!(repo.get_planets().is_none());
    assert!(repo.get_planet("https://x/planets/1/").is_none());
}
