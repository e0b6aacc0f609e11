//! The person resource.

use vstd::prelude::*;
use vstd::string::StringExecFns;
use crate::json::{Json, str_field, str_arr_field, opt_str_field, get_string_field, get_string_array_field, get_opt_string_field};
use crate::models::{clone_strings, clone_opt_string};
use crate::store::Resource;

verus! {

/// The collection page envelope for people.
pub struct People {
    pub count: u32,
    pub next: Option<String>,
    pub previous: Option<String>,
    pub results: Vec<Person>,
}

/// A person record, identified by its canonical `url`.
#[derive(Debug, Clone, PartialEq, Eq)]
pub struct Person {
    pub birth_year: String,
    pub eye_color: String,
    pub films: Vec<String>,
    pub gender: String,
    pub hair_color: String,
    pub height: String,
    pub homeworld: Option<String>,
    pub mass: String,
    pub name: String,
    pub skin_color: String,
    pub created: String,
    pub edited: String,
    pub species: Vec<String>,
    pub starships: Vec<String>,
    pub url: String,
    pub vehicles: Vec<String>,
}

/// The mathematical view of a person record.
pub struct PersonV {
    pub birth_year: Seq<char>,
    pub eye_color: Seq<char>,
    pub films: Seq<Seq<char>>,
    pub gender: Seq<char>,
    pub hair_color: Seq<char>,
    pub height: Seq<char>,
    pub homeworld: Option<Seq<char>>,
    pub mass: Seq<char>,
    pub name: Seq<char>,
    pub skin_color: Seq<char>,
    pub created: Seq<char>,
    pub edited: Seq<char>,
    pub species: Seq<Seq<char>>,
    pub starships: Seq<Seq<char>>,
    pub url: Seq<char>,
    pub vehicles: Seq<Seq<char>>,
}

impl View for Person {
    type V = PersonV;

    open spec fn view(&self) -> PersonV {
        PersonV {
            birth_year: self.birth_year@,
            eye_color: self.eye_color@,
            films: self.films.deep_view(),
            gender: self.gender@,
            hair_color: self.hair_color@,
            height: self.height@,
            homeworld: self.homeworld.deep_view(),
            mass: self.mass@,
            name: self.name@,
            skin_color: self.skin_color@,
            created: self.created@,
            edited: self.edited@,
            species: self.species.deep_view(),
            starships: self.starships.deep_view(),
            url: self.url@,
            vehicles: self.vehicles.deep_view(),
        }
    }
}

impl Person {
    /// Whether a JSON document has the person record shape.
    pub open spec fn spec_json_ok(j: Json) -> bool {
        &&& str_field(j, "birth_year"@) is Some
        &&& str_field(j, "eye_color"@) is Some
        &&& str_arr_field(j, "films"@) is Some
        &&& str_field(j, "gender"@) is Some
        &&& str_field(j, "hair_color"@) is Some
        &&& str_field(j, "height"@) is Some
        &&& opt_str_field(j, "homeworld"@) is Some
        &&& str_field(j, "mass"@) is Some
        &&& str_field(j, "name"@) is Some
        &&& str_field(j, "skin_color"@) is Some
        &&& str_field(j, "created"@) is Some
        &&& str_field(j, "edited"@) is Some
        &&& str_arr_field(j, "species"@) is Some
        &&& str_arr_field(j, "starships"@) is Some
        &&& str_field(j, "url"@) is Some
        &&& str_arr_field(j, "vehicles"@) is Some
    }

    /// Whether `v` is the person decoded from document `j`.
    pub open spec fn spec_json_matches(v: PersonV, j: Json) -> bool {
        &&& str_field(j, "birth_year"@) == Some(v.birth_year)
        &&& str_field(j, "eye_color"@) == Some(v.eye_color)
        &&& str_arr_field(j, "films"@) == Some(v.films)
        &&& str_field(j, "gender"@) == Some(v.gender)
        &&& str_field(j, "hair_color"@) == Some(v.hair_color)
        &&& str_field(j, "height"@) == Some(v.height)
        &&& opt_str_field(j, "homeworld"@) == Some(v.homeworld)
        &&& str_field(j, "mass"@) == Some(v.mass)
        &&& str_field(j, "name"@) == Some(v.name)
        &&& str_field(j, "skin_color"@) == Some(v.skin_color)
        &&& str_field(j, "created"@) == Some(v.created)
        &&& str_field(j, "edited"@) == Some(v.edited)
        &&& str_arr_field(j, "species"@) == Some(v.species)
        &&& str_arr_field(j, "starships"@) == Some(v.starships)
        &&& str_field(j, "url"@) == Some(v.url)
        &&& str_arr_field(j, "vehicles"@) == Some(v.vehicles)
    }

    /// Renders the record as a multi-line card.
    pub fn description(&self) -> (r: String)
        ensures
            r@ == "\n-----------------\nName:           "@ + self.name@ + "\nBirth Year:     "@
                + self.birth_year@ + "\nEye Color:      "@ + self.eye_color@
                + "\nHair Color:     "@ + self.hair_color@ + "\nSkin Color:     "@
                + self.skin_color@ + "\nHeight:         "@ + self.height@
                + "\nMass:           "@ + self.mass@ + "\nGender:         "@ + self.gender@
                + "\nHomeworld:      "@
                + (match self.homeworld { Some(s) => s@, None => "Unknown"@ })
                + "\n------------------\n"@,
    {
        let mut r = String::from_str("\n-----------------\nName:           ");
        r.append(self.name.as_str());
        r.append("\nBirth Year:     ");
        r.append(self.birth_year.as_str());
        r.append("\nEye Color:      ");
        r.append(self.eye_color.as_str());
        r.append("\nHair Color:     ");
        r.append(self.hair_color.as_str());
        r.append("\nSkin Color:     ");
        r.append(self.skin_color.as_str());
        r.append("\nHeight:         ");
        r.append(self.height.as_str());
        r.append("\nMass:           ");
        r.append(self.mass.as_str());
        r.append("\nGender:         ");
        r.append(self.gender.as_str());
        r.append("\nHomeworld:      ");
        match &self.homeworld {
            Some(s) => r.append(s.as_str()),
            None => r.append("Unknown"),
        }
        r.append("\n------------------\n");
        r
    }
}

impl Resource for Person {
    open spec fn rkey(v: PersonV) -> Seq<char> {
        v.url
    }

    open spec fn json_ok(j: Json) -> bool {
        Person::spec_json_ok(j)
    }

    open spec fn json_matches(v: PersonV, j: Json) -> bool {
        Person::spec_json_matches(v, j)
    }

    fn url_str(&self) -> (r: &str) {
        self.url.as_str()
    }

    fn duplicate(&self) -> (r: Self) {
        Person {
            birth_year: self.birth_year.clone(),
            eye_color: self.eye_color.clone(),
            films: clone_strings(&self.films),
            gender: self.gender.clone(),
            hair_color: self.hair_color.clone(),
            height: self.height.clone(),
            homeworld: clone_opt_string(&self.homeworld),
            mass: self.mass.clone(),
            name: self.name.clone(),
            skin_color: self.skin_color.clone(),
            created: self.created.clone(),
            edited: self.edited.clone(),
            species: clone_strings(&self.species),
            starships: clone_strings(&self.starships),
            url: self.url.clone(),
            vehicles: clone_strings(&self.vehicles),
        }
    }

    fn from_json(doc: &serde_json::Value) -> (r: Option<Self>) {
        let birth_year = match get_string_field(doc, "birth_year") {
            Some(x) => x,
            None => {
                return None;
            },
        };
        let eye_color = match get_string_field(doc, "eye_color") {
            Some(x) => x,
            None => {
                return None;
            },
        };
        let films = match get_string_array_field(doc, "films") {
            Some(x) => x,
            None => {
                return None;
            },
        };
        let gender = match get_string_field(doc, "gender") {
            Some(x) => x,
            None => {
                return None;
            },
        };
        let hair_color = match get_string_field(doc, "hair_color") {
            Some(x) => x,
            None => {
                return None;
            },
        };
        let height = match get_string_field(doc, "height") {
            Some(x) => x,
            None => {
                return None;
            },
        };
        let homeworld = match get_opt_string_field(doc, "homeworld") {
            Some(x) => x,
            None => {
                return None;
            },
        };
        let mass = match get_string_field(doc, "mass") {
            Some(x) => x,
            None => {
                return None;
            },
        };
        let name = match get_string_field(doc, "name") {
            Some(x) => x,
            None => {
                return None;
            },
        };
        let skin_color = match get_string_field(doc, "skin_color") {
            Some(x) => x,
            None => {
                return None;
            },
        };
        let created = match get_string_field(doc, "created") {
            Some(x) => x,
            None => {
                return None;
            },
        };
        let edited = match get_string_field(doc, "edited") {
            Some(x) => x,
            None => {
                return None;
            },
        };
        let species = match get_string_array_field(doc, "species") {
            Some(x) => x,
            None => {
                return None;
            },
        };
        let starships = match get_string_array_field(doc, "starships") {
            Some(x) => x,
            None => {
                return None;
            },
        };
        let url = match get_string_field(doc, "url") {
            Some(x) => x,
            None => {
                return None;
            },
        };
        let vehicles = match get_string_array_field(doc, "vehicles") {
            Some(x) => x,
            None => {
                return None;
            },
        };
        Some(
            Person {
                birth_year,
                eye_color,
                films,
                gender,
                hair_color,
                height,
                homeworld,
                mass,
                name,
                skin_color,
                created,
                edited,
                species,
                starships,
                url,
                vehicles,
            },
        )
    }
}

} // verus!
