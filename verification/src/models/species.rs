//! The species resource.

use vstd::prelude::*;
use vstd::string::StringExecFns;
use crate::json::{Json, str_field, str_arr_field, opt_str_field, get_string_field, get_string_array_field, get_opt_string_field};
use crate::models::{clone_strings, clone_opt_string};
use crate::store::Resource;

verus! {

/// The collection page envelope for species.
pub struct SpeciesList {
    pub count: u32,
    pub next: Option<String>,
    pub previous: Option<String>,
    pub results: Vec<Species>,
}

/// A species record, identified by its canonical `url`.
#[derive(Debug, Clone, PartialEq, Eq)]
pub struct Species {
    pub name: String,
    pub classification: String,
    pub designation: String,
    pub average_height: String,
    pub skin_colors: String,
    pub hair_colors: String,
    pub eye_colors: String,
    pub average_lifespan: String,
    pub homeworld: Option<String>,
    pub language: String,
    pub people: Vec<String>,
    pub films: Vec<String>,
    pub created: String,
    pub edited: String,
    pub url: String,
}

/// The mathematical view of a species record.
pub struct SpeciesV {
    pub name: Seq<char>,
    pub classification: Seq<char>,
    pub designation: Seq<char>,
    pub average_height: Seq<char>,
    pub skin_colors: Seq<char>,
    pub hair_colors: Seq<char>,
    pub eye_colors: Seq<char>,
    pub average_lifespan: Seq<char>,
    pub homeworld: Option<Seq<char>>,
    pub language: Seq<char>,
    pub people: Seq<Seq<char>>,
    pub films: Seq<Seq<char>>,
    pub created: Seq<char>,
    pub edited: Seq<char>,
    pub url: Seq<char>,
}

impl View for Species {
    type V = SpeciesV;

    open spec fn view(&self) -> SpeciesV {
        SpeciesV {
            name: self.name@,
            classification: self.classification@,
            designation: self.designation@,
            average_height: self.average_height@,
            skin_colors: self.skin_colors@,
            hair_colors: self.hair_colors@,
            eye_colors: self.eye_colors@,
            average_lifespan: self.average_lifespan@,
            homeworld: self.homeworld.deep_view(),
            language: self.language@,
            people: self.people.deep_view(),
            films: self.films.deep_view(),
            created: self.created@,
            edited: self.edited@,
            url: self.url@,
        }
    }
}

impl Species {
    /// Whether a JSON document has the species record shape.
    pub open spec fn spec_json_ok(j: Json) -> bool {
        &&& str_field(j, "name"@) is Some
        &&& str_field(j, "classification"@) is Some
        &&& str_field(j, "designation"@) is Some
        &&& str_field(j, "average_height"@) is Some
        &&& str_field(j, "skin_colors"@) is Some
        &&& str_field(j, "hair_colors"@) is Some
        &&& str_field(j, "eye_colors"@) is Some
        &&& str_field(j, "average_lifespan"@) is Some
        &&& opt_str_field(j, "homeworld"@) is Some
        &&& str_field(j, "language"@) is Some
        &&& str_arr_field(j, "people"@) is Some
        &&& str_arr_field(j, "films"@) is Some
        &&& str_field(j, "created"@) is Some
        &&& str_field(j, "edited"@) is Some
        &&& str_field(j, "url"@) is Some
    }

    /// Whether `v` is the species decoded from document `j`.
    pub open spec fn spec_json_matches(v: SpeciesV, j: Json) -> bool {
        &&& str_field(j, "name"@) == Some(v.name)
        &&& str_field(j, "classification"@) == Some(v.classification)
        &&& str_field(j, "designation"@) == Some(v.designation)
        &&& str_field(j, "average_height"@) == Some(v.average_height)
        &&& str_field(j, "skin_colors"@) == Some(v.skin_colors)
        &&& str_field(j, "hair_colors"@) == Some(v.hair_colors)
        &&& str_field(j, "eye_colors"@) == Some(v.eye_colors)
        &&& str_field(j, "average_lifespan"@) == Some(v.average_lifespan)
        &&& opt_str_field(j, "homeworld"@) == Some(v.homeworld)
        &&& str_field(j, "language"@) == Some(v.language)
        &&& str_arr_field(j, "people"@) == Some(v.people)
        &&& str_arr_field(j, "films"@) == Some(v.films)
        &&& str_field(j, "created"@) == Some(v.created)
        &&& str_field(j, "edited"@) == Some(v.edited)
        &&& str_field(j, "url"@) == Some(v.url)
    }

    /// Renders the record as a multi-line card.
    pub fn description(&self) -> (r: String)
        ensures
            r@ == "\n---------------------\nName:               "@ + self.name@
                + "\nClassification:     "@ + self.classification@ + "\nDesignation:        "@
                + self.designation@ + "\nAverage Height:     "@ + self.average_height@
                + "\nSkin Colors:        "@ + self.skin_colors@ + "\nHair Colors:        "@
                + self.hair_colors@ + "\nEye Colors:         "@ + self.eye_colors@
                + "\nAverage Lifespan:   "@ + self.average_lifespan@ + "\nHomeworld:          "@
                + (match self.homeworld { Some(s) => s@, None => "Unknown"@ })
                + "\nLanguage:           "@ + self.language@
                + "\n\n            ---------------------\n"@,
    {
        let mut r = String::from_str("\n---------------------\nName:               ");
        r.append(self.name.as_str());
        r.append("\nClassification:     ");
        r.append(self.classification.as_str());
        r.append("\nDesignation:        ");
        r.append(self.designation.as_str());
        r.append("\nAverage Height:     ");
        r.append(self.average_height.as_str());
        r.append("\nSkin Colors:        ");
        r.append(self.skin_colors.as_str());
        r.append("\nHair Colors:        ");
        r.append(self.hair_colors.as_str());
        r.append("\nEye Colors:         ");
        r.append(self.eye_colors.as_str());
        r.append("\nAverage Lifespan:   ");
        r.append(self.average_lifespan.as_str());
        r.append("\nHomeworld:          ");
        match &self.homeworld {
            Some(s) => r.append(s.as_str()),
            None => r.append("Unknown"),
        }
        r.append("\nLanguage:           ");
        r.append(self.language.as_str());
        r.append("\n\n            ---------------------\n");
        r
    }
}

impl Resource for Species {
    open spec fn rkey(v: SpeciesV) -> Seq<char> {
        v.url
    }

    open spec fn json_ok(j: Json) -> bool {
        Species::spec_json_ok(j)
    }

    open spec fn json_matches(v: SpeciesV, j: Json) -> bool {
        Species::spec_json_matches(v, j)
    }

    fn url_str(&self) -> (r: &str) {
        self.url.as_str()
    }

    fn duplicate(&self) -> (r: Self) {
        Species {
            name: self.name.clone(),
            classification: self.classification.clone(),
            designation: self.designation.clone(),
            average_height: self.average_height.clone(),
            skin_colors: self.skin_colors.clone(),
            hair_colors: self.hair_colors.clone(),
            eye_colors: self.eye_colors.clone(),
            average_lifespan: self.average_lifespan.clone(),
            homeworld: clone_opt_string(&self.homeworld),
            language: self.language.clone(),
            people: clone_strings(&self.people),
            films: clone_strings(&self.films),
            created: self.created.clone(),
            edited: self.edited.clone(),
            url: self.url.clone(),
        }
    }

    fn from_json(doc: &serde_json::Value) -> (r: Option<Self>) {
        let name = match get_string_field(doc, "name") {
            Some(x) => x,
            None => {
                return None;
            },
        };
        let classification = match get_string_field(doc, "classification") {
            Some(x) => x,
            None => {
                return None;
            },
        };
        let designation = match get_string_field(doc, "designation") {
            Some(x) => x,
            None => {
                return None;
            },
        };
        let average_height = match get_string_field(doc, "average_height") {
            Some(x) => x,
            None => {
                return None;
            },
        };
        let skin_colors = match get_string_field(doc, "skin_colors") {
            Some(x) => x,
            None => {
                return None;
            },
        };
        let hair_colors = match get_string_field(doc, "hair_colors") {
            Some(x) => x,
            None => {
                return None;
            },
        };
        let eye_colors = match get_string_field(doc, "eye_colors") {
            Some(x) => x,
            None => {
                return None;
            },
        };
        let average_lifespan = match get_string_field(doc, "average_lifespan") {
            Some(x) => x,
            None => {
                return None;
            },
        };
        let homeworld = match get_opt_string_field(doc, "homeworld") {
            Some(x) => x,
            None => {
                return None;
            },
        };
        let language = match get_string_field(doc, "language") {
            Some(x) => x,
            None => {
                return None;
            },
        };
        let people = match get_string_array_field(doc, "people") {
            Some(x) => x,
            None => {
                return None;
            },
        };
        let films = match get_string_array_field(doc, "films") {
            Some(x) => x,
            None => {
                return None;
            },
        };
        let created = match get_string_field(doc, "created") {
            Some(x) => x,
            None => {
                return None;
            },
        };
        let edited = match get_string_field(doc, "edited") {
            Some(x) => x,
            None => {
                return None;
            },
        };
        let url = match get_string_field(doc, "url") {
            Some(x) => x,
            None => {
                return None;
            },
        };
        Some(
            Species {
                name,
                classification,
                designation,
                average_height,
                skin_colors,
                hair_colors,
                eye_colors,
                average_lifespan,
                homeworld,
                language,
                people,
                films,
                created,
                edited,
                url,
            },
        )
    }
}

} // verus!
