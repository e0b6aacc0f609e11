//! The film resource.

use vstd::prelude::*;
use vstd::string::StringExecFns;
use crate::json::{Json, str_field, str_arr_field, i32_field, get_string_field, get_string_array_field, get_i32_field};
use crate::models::{clone_strings};
use crate::decimal::{dec_int, i32_to_string};
use crate::store::Resource;

verus! {

/// The collection page envelope for films.
pub struct Films {
    pub count: u32,
    pub next: Option<String>,
    pub previous: Option<String>,
    pub results: Vec<Film>,
}

/// A film record, identified by its canonical `url`.
#[derive(Debug, Clone, PartialEq, Eq)]
pub struct Film {
    pub title: String,
    pub episode_id: i32,
    pub opening_crawl: String,
    pub director: String,
    pub producer: String,
    pub release_date: String,
    pub characters: Vec<String>,
    pub planets: Vec<String>,
    pub starships: Vec<String>,
    pub vehicles: Vec<String>,
    pub species: Vec<String>,
    pub created: String,
    pub edited: String,
    pub url: String,
}

/// The mathematical view of a film record.
pub struct FilmV {
    pub title: Seq<char>,
    pub episode_id: i32,
    pub opening_crawl: Seq<char>,
    pub director: Seq<char>,
    pub producer: Seq<char>,
    pub release_date: Seq<char>,
    pub characters: Seq<Seq<char>>,
    pub planets: Seq<Seq<char>>,
    pub starships: Seq<Seq<char>>,
    pub vehicles: Seq<Seq<char>>,
    pub species: Seq<Seq<char>>,
    pub created: Seq<char>,
    pub edited: Seq<char>,
    pub url: Seq<char>,
}

impl View for Film {
    type V = FilmV;

    open spec fn view(&self) -> FilmV {
        FilmV {
            title: self.title@,
            episode_id: self.episode_id,
            opening_crawl: self.opening_crawl@,
            director: self.director@,
            producer: self.producer@,
            release_date: self.release_date@,
            characters: self.characters.deep_view(),
            planets: self.planets.deep_view(),
            starships: self.starships.deep_view(),
            vehicles: self.vehicles.deep_view(),
            species: self.species.deep_view(),
            created: self.created@,
            edited: self.edited@,
            url: self.url@,
        }
    }
}

impl Film {
    /// Whether a JSON document has the film record shape.
    pub open spec fn spec_json_ok(j: Json) -> bool {
        &&& str_field(j, "title"@) is Some
        &&& i32_field(j, "episode_id"@) is Some
        &&& str_field(j, "opening_crawl"@) is Some
        &&& str_field(j, "director"@) is Some
        &&& str_field(j, "producer"@) is Some
        &&& str_field(j, "release_date"@) is Some
        &&& str_arr_field(j, "characters"@) is Some
        &&& str_arr_field(j, "planets"@) is Some
        &&& str_arr_field(j, "starships"@) is Some
        &&& str_arr_field(j, "vehicles"@) is Some
        &&& str_arr_field(j, "species"@) is Some
        &&& str_field(j, "created"@) is Some
        &&& str_field(j, "edited"@) is Some
        &&& str_field(j, "url"@) is Some
    }

    /// Whether `v` is the film decoded from document `j`.
    pub open spec fn spec_json_matches(v: FilmV, j: Json) -> bool {
        &&& str_field(j, "title"@) == Some(v.title)
        &&& i32_field(j, "episode_id"@) == Some(v.episode_id)
        &&& str_field(j, "opening_crawl"@) == Some(v.opening_crawl)
        &&& str_field(j, "director"@) == Some(v.director)
        &&& str_field(j, "producer"@) == Some(v.producer)
        &&& str_field(j, "release_date"@) == Some(v.release_date)
        &&& str_arr_field(j, "characters"@) == Some(v.characters)
        &&& str_arr_field(j, "planets"@) == Some(v.planets)
        &&& str_arr_field(j, "starships"@) == Some(v.starships)
        &&& str_arr_field(j, "vehicles"@) == Some(v.vehicles)
        &&& str_arr_field(j, "species"@) == Some(v.species)
        &&& str_field(j, "created"@) == Some(v.created)
        &&& str_field(j, "edited"@) == Some(v.edited)
        &&& str_field(j, "url"@) == Some(v.url)
    }

    /// Renders the record as a multi-line card.
    pub fn description(&self) -> (r: String)
        ensures
            r@ == "\n-----------------\nTitle:          "@ + self.title@ + "\nEpisode ID:     "@
                + dec_int(self.episode_id as int) + "\nRelease Date:   "@ + self.release_date@
                + "\nDirector:       "@ + self.director@ + "\nProducer:       "@
                + self.producer@ + "\n------------------\n"@,
    {
        let mut r = String::from_str("\n-----------------\nTitle:          ");
        r.append(self.title.as_str());
        r.append("\nEpisode ID:     ");
        let num = i32_to_string(self.episode_id);
        r.append(num.as_str());
        r.append("\nRelease Date:   ");
        r.append(self.release_date.as_str());
        r.append("\nDirector:       ");
        r.append(self.director.as_str());
        r.append("\nProducer:       ");
        r.append(self.producer.as_str());
        r.append("\n------------------\n");
        r
    }
}

impl Resource for Film {
    open spec fn rkey(v: FilmV) -> Seq<char> {
        v.url
    }

    open spec fn json_ok(j: Json) -> bool {
        Film::spec_json_ok(j)
    }

    open spec fn json_matches(v: FilmV, j: Json) -> bool {
        Film::spec_json_matches(v, j)
    }

    fn url_str(&self) -> (r: &str) {
        self.url.as_str()
    }

    fn duplicate(&self) -> (r: Self) {
        Film {
            title: self.title.clone(),
            episode_id: self.episode_id,
            opening_crawl: self.opening_crawl.clone(),
            director: self.director.clone(),
            producer: self.producer.clone(),
            release_date: self.release_date.clone(),
            characters: clone_strings(&self.characters),
            planets: clone_strings(&self.planets),
            starships: clone_strings(&self.starships),
            vehicles: clone_strings(&self.vehicles),
            species: clone_strings(&self.species),
            created: self.created.clone(),
            edited: self.edited.clone(),
            url: self.url.clone(),
        }
    }

    fn from_json(doc: &serde_json::Value) -> (r: Option<Self>) {
        let title = match get_string_field(doc, "title") {
            Some(x) => x,
            None => {
                return None;
            },
        };
        let episode_id = match get_i32_field(doc, "episode_id") {
            Some(x) => x,
            None => {
                return None;
            },
        };
        let opening_crawl = match get_string_field(doc, "opening_crawl") {
            Some(x) => x,
            None => {
                return None;
            },
        };
        let director = match get_string_field(doc, "director") {
            Some(x) => x,
            None => {
                return None;
            },
        };
        let producer = match get_string_field(doc, "producer") {
            Some(x) => x,
            None => {
                return None;
            },
        };
        let release_date = match get_string_field(doc, "release_date") {
            Some(x) => x,
            None => {
                return None;
            },
        };
        let characters = match get_string_array_field(doc, "characters") {
            Some(x) => x,
            None => {
                return None;
            },
        };
        let planets = match get_string_array_field(doc, "planets") {
            Some(x) => x,
            None => {
                return None;
            },
        };
        let starships = match get_string_array_field(doc, "starships") {
            Some(x) => x,
            None => {
                return None;
            },
        };
        let vehicles = match get_string_array_field(doc, "vehicles") {
            Some(x) => x,
            None => {
                return None;
            },
        };
        let species = match get_string_array_field(doc, "species") {
            Some(x) => x,
            None => {
                return None;
            },
        };
        let created = match get_string_field(doc, "created") {
            Some(x) => x,
            None => {
                return None;
            },
        };
        let edited = match get_string_field(doc, "edited") {
            Some(x) => x,
            None => {
                return None;
            },
        };
        let url = match get_string_field(doc, "url") {
            Some(x) => x,
            None => {
                return None;
            },
        };
        Some(
            Film {
                title,
                episode_id,
                opening_crawl,
                director,
                producer,
                release_date,
                characters,
                planets,
                starships,
                vehicles,
                species,
                created,
                edited,
                url,
            },
        )
    }
}

} // verus!
