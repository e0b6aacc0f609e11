use libstarwars::fetchable::{Fetchable, all_fetchable};
use libstarwars::list_items::{ListItems, person_related_items};
use libstarwars::models::films::Film;
use libstarwars::models::people::Person;
use libstarwars::models::planets::Planet;
use libstarwars::models::species::Species;

fn render_planet() -> Planet {
    Planet {
        name: "Tatooine".to_string(),
        rotation_period: "23".to_string(),
        orbital_period: "304".to_string(),
        diameter: "10465".to_string(),
        climate: "arid".to_string(),
        gravity: "1 standard".to_string(),
        terrain: "desert".to_string(),
        surface_water: "1".to_string(),
        population: "200000".to_string(),
        residents: vec![],
        films: vec![],
        created: "2014".to_string(),
        edited: "2014".to_string(),
        url: "https://x/planets/1/".to_string(),
    }
}

fn render_person(homeworld: Option<String>) -> Person {
    Person {
        birth_year: "19BBY".to_string(),
        eye_color: "blue".to_string(),
        films: vec!["https://x/films/1/".to_string()],
        gender: "male".to_string(),
        hair_color: "blond".to_string(),
        height: "172".to_string(),
        homeworld,
        mass: "77".to_string(),
        name: "Luke Skywalker".to_string(),
        skin_color: "fair".to_string(),
        created: "2014".to_string(),
        edited: "2014".to_string(),
        species: vec![],
        starships: vec!["https://x/starships/12/".to_string()],
        url: "https://x/people/1/".to_string(),
        vehicles: vec![],
    }
}

#[test]
fn planet_description_renders_exactly() {
    let expected = "\n---------------------\nName:              Tatooine\nRotation Period:   23\nOrbital Period:    304\nDiameter:          10465\nClimate:           arid\nGravity:           1 standard\nTerrain:           desert\nSurface Water:     1\nPopulation:        200000\n---------------------\n";
    assert_eq!(render_planet().description(), expected);
}

#[test]
fn film_description_renders_episode_number() {
    let film = Film {
        title: "A New Hope".to_string(),
        episode_id: 4,
        opening_crawl: "It is a period of civil war.".to_string(),
        director: "George Lucas".to_string(),
        producer: "Gary Kurtz, Rick McCallum".to_string(),
        release_date: "1977-05-25".to_string(),
        characters: vec![],
        planets: vec![],
        starships: vec![],
        vehicles: vec![],
        species: vec![],
        created: "2014".to_string(),
        edited: "2014".to_string(),
        url: "https://x/films/1/".to_string(),
    };
    let expected = "\n-----------------\nTitle:          A New Hope\nEpisode ID:     4\nRelease Date:   1977-05-25\nDirector:       George Lucas\nProducer:       Gary Kurtz, Rick McCallum\n------------------\n";
    assert_eq!(film.description(), expected);

    let mut negative = film;
    negative.episode_id = -30;
    assert!(negative.description().contains("\nEpisode ID:     -30\n"));
}

#[test]
fn person_description_falls_back_to_unknown_homeworld() {
    let person = render_person(None);
    let expected = "\n-----------------\nName:           Luke Skywalker\nBirth Year:     19BBY\nEye Color:      blue\nHair Color:     blond\nSkin Color:     fair\nHeight:         172\nMass:           77\nGender:         male\nHomeworld:      Unknown\n------------------\n";
    assert_eq!(person.description(), expected);

    let with_home = render_person(Some("https://x/planets/1/".to_string()));
    assert!(with_home
        .description()
        .contains("\nHomeworld:      https://x/planets/1/\n"));
}

#[test]
fn species_description_keeps_source_layout() {
    let species = Species {
        name: "Wookiee".to_string(),
        classification: "mammal".to_string(),
        designation: "sentient".to_string(),
        average_height: "210".to_string(),
        skin_colors: "gray".to_string(),
        hair_colors: "black".to_string(),
        eye_colors: "blue".to_string(),
        average_lifespan: "400".to_string(),
        homeworld: None,
        language: "Shyriiwook".to_string(),
        people: vec![],
        films: vec![],
        created: "2014".to_string(),
        edited: "2014".to_string(),
        url: "https://x/species/3/".to_string(),
    };
    let expected = "\n---------------------\nName:               Wookiee\nClassification:     mammal\nDesignation:        sentient\nAverage Height:     210\nSkin Colors:        gray\nHair Colors:        black\nEye Colors:         blue\nAverage Lifespan:   400\nHomeworld:          Unknown\nLanguage:           Shyriiwook\n\n            ---------------------\n";
    assert_eq!(species.description(), expected);
}

#[test]
fn all_fetchable_lists_every_kind_in_order() {
    let kinds = all_fetchable();
    assert_eq!(
        kinds,
        vec![
            Fetchable::Planets,
            Fetchable::People,
            Fetchable::Films,
            Fetchable::Species,
            Fetchable::Starships,
            Fetchable::Vehicles,
        ]
    );
}

#[test]
fn fetchable_display_names_and_urls() {
    assert_eq!(Fetchable::Planets.display_name(), "Planets");
    assert_eq!(Fetchable::Species.display_name(), "Species");
    assert_eq!(Fetchable::Planets.url(), "https://swapi.dev/api/planets");
    assert_eq!(Fetchable::People.url(), "https://swapi.dev/api/people");
    assert_eq!(Fetchable::Films.url(), "https://swapi.dev/api/films");
    assert_eq!(Fetchable::Species.url(), "https://swapi.dev/api/species");
    assert_eq!(Fetchable::Starships.url(), "https://swapi.dev/api/starships");
    assert_eq!(Fetchable::Vehicles.url(), "https://swapi.dev/api/vehicles");
}

#[test]
fn person_related_items_reports_non_empty_lists() {
    let person = render_person(Some("https://x/planets/1/".to_string()));
    let items = person_related_items(&person);
    assert_eq!(
        items,
        vec![
            ListItems::Films(vec!["https://x/films/1/".to_string()]),
            ListItems::Starships(vec!["https://x/starships/12/".to_string()]),
            ListItems::Homeworld("https://x/planets/1/".to_string()),
        ]
    );
}

#[test]
fn person_related_items_empty_person_reports_nothing() {
    let mut person = render_person(None);
    person.films = vec![];
    person.starships = vec![];
    let items = person_related_items(&person);
    assert!(items.is_empty());
}
