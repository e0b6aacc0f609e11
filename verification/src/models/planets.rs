//! The planet resource.

use vstd::prelude::*;
use vstd::string::StringExecFns;
use crate::json::{Json, str_field, str_arr_field, get_string_field, get_string_array_field};
use crate::models::clone_strings;
use crate::store::Resource;

verus! {

/// The collection page envelope for planets.
pub struct Planets {
    pub count: u32,
    pub next: Option<String>,
    pub previous: Option<String>,
    pub results: Vec<Planet>,
}

/// A planet record, identified by its canonical `url`.
#[derive(Debug, Clone, PartialEq, Eq)]
pub struct Planet {
    pub name: String,
    pub rotation_period: String,
    pub orbital_period: String,
    pub diameter: String,
    pub climate: String,
    pub gravity: String,
    pub terrain: String,
    pub surface_water: String,
    pub population: String,
    pub residents: Vec<String>,
    pub films: Vec<String>,
    pub created: String,
    pub edited: String,
    pub url: String,
}

/// The mathematical view of a planet record.
pub struct PlanetV {
    pub name: Seq<char>,
    pub rotation_period: Seq<char>,
    pub orbital_period: Seq<char>,
    pub diameter: Seq<char>,
    pub climate: Seq<char>,
    pub gravity: Seq<char>,
    pub terrain: Seq<char>,
    pub surface_water: Seq<char>,
    pub population: Seq<char>,
    pub residents: Seq<Seq<char>>,
    pub films: Seq<Seq<char>>,
    pub created: Seq<char>,
    pub edited: Seq<char>,
    pub url: Seq<char>,
}

impl View for Planet {
    type V = PlanetV;

    open spec fn view(&self) -> PlanetV {
        PlanetV {
            name: self.name@,
            rotation_period: self.rotation_period@,
            orbital_period: self.orbital_period@,
            diameter: self.diameter@,
            climate: self.climate@,
            gravity: self.gravity@,
            terrain: self.terrain@,
            surface_water: self.surface_water@,
            population: self.population@,
            residents: self.residents.deep_view(),
            films: self.films.deep_view(),
            created: self.created@,
            edited: self.edited@,
            url: self.url@,
        }
    }
}

impl Planet {
    /// Whether a JSON document has the planet record shape.
    pub open spec fn spec_json_ok(j: Json) -> bool {
        &&& str_field(j, "name"@) is Some
        &&& str_field(j, "rotation_period"@) is Some
        &&& str_field(j, "orbital_period"@) is Some
        &&& str_field(j, "diameter"@) is Some
        &&& str_field(j, "climate"@) is Some
        &&& str_field(j, "gravity"@) is Some
        &&& str_field(j, "terrain"@) is Some
        &&& str_field(j, "surface_water"@) is Some
        &&& str_field(j, "population"@) is Some
        &&& str_arr_field(j, "residents"@) is Some
        &&& str_arr_field(j, "films"@) is Some
        &&& str_field(j, "created"@) is Some
        &&& str_field(j, "edited"@) is Some
        &&& str_field(j, "url"@) is Some
    }

    /// Whether `v` is the planet decoded from document `j`.
    pub open spec fn spec_json_matches(v: PlanetV, j: Json) -> bool {
        &&& str_field(j, "name"@) == Some(v.name)
        &&& str_field(j, "rotation_period"@) == Some(v.rotation_period)
        &&& str_field(j, "orbital_period"@) == Some(v.orbital_period)
        &&& str_field(j, "diameter"@) == Some(v.diameter)
        &&& str_field(j, "climate"@) == Some(v.climate)
        &&& str_field(j, "gravity"@) == Some(v.gravity)
        &&& str_field(j, "terrain"@) == Some(v.terrain)
        &&& str_field(j, "surface_water"@) == Some(v.surface_water)
        &&& str_field(j, "population"@) == Some(v.population)
        &&& str_arr_field(j, "residents"@) == Some(v.residents)
        &&& str_arr_field(j, "films"@) == Some(v.films)
        &&& str_field(j, "created"@) == Some(v.created)
        &&& str_field(j, "edited"@) == Some(v.edited)
        &&& str_field(j, "url"@) == Some(v.url)
    }

    /// Renders the record as a multi-line card.
    pub fn description(&self) -> (r: String)
        ensures
            r@ == "\n---------------------\nName:              "@ + self.name@
                + "\nRotation Period:   "@ + self.rotation_period@ + "\nOrbital Period:    "@
                + self.orbital_period@ + "\nDiameter:          "@ + self.diameter@
                + "\nClimate:           "@ + self.climate@ + "\nGravity:           "@
                + self.gravity@ + "\nTerrain:           "@ + self.terrain@
                + "\nSurface Water:     "@ + self.surface_water@ + "\nPopulation:        "@
                + self.population@ + "\n---------------------\n"@,
    {
        let mut r = String::from_str("\n---------------------\nName:              ");
        r.append(self.name.as_str());
        r.append("\nRotation Period:   ");
        r.append(self.rotation_period.as_str());
        r.append("\nOrbital Period:    ");
        r.append(self.orbital_period.as_str());
        r.append("\nDiameter:          ");
        r.append(self.diameter.as_str());
        r.append("\nClimate:           ");
        r.append(self.climate.as_str());
        r.append("\nGravity:           ");
        r.append(self.gravity.as_str());
        r.append("\nTerrain:           ");
        r.append(self.terrain.as_str());
        r.append("\nSurface Water:     ");
        r.append(self.surface_water.as_str());
        r.append("\nPopulation:        ");
        r.append(self.population.as_str());
        r.append("\n---------------------\n");
        r
    }
}

impl Resource for Planet {
    open spec fn rkey(v: PlanetV) -> Seq<char> {
        v.url
    }

    open spec fn json_ok(j: Json) -> bool {
        Planet::spec_json_ok(j)
    }

    open spec fn json_matches(v: PlanetV, j: Json) -> bool {
        Planet::spec_json_matches(v, j)
    }

    fn url_str(&self) -> (r: &str) {
        self.url.as_str()
    }

    fn duplicate(&self) -> (r: Self) {
        Planet {
            name: self.name.clone(),
            rotation_period: self.rotation_period.clone(),
            orbital_period: self.orbital_period.clone(),
            diameter: self.diameter.clone(),
            climate: self.climate.clone(),
            gravity: self.gravity.clone(),
            terrain: self.terrain.clone(),
            surface_water: self.surface_water.clone(),
            population: self.population.clone(),
            residents: clone_strings(&self.residents),
            films: clone_strings(&self.films),
            created: self.created.clone(),
            edited: self.edited.clone(),
            url: self.url.clone(),
        }
    }

    fn from_json(doc: &serde_json::Value) -> (r: Option<Self>) {
        let name = match get_string_field(doc, "name") {
            Some(s) => s,
            None => {
                return None;
            },
        };
        let rotation_period = match get_string_field(doc, "rotation_period") {
            Some(s) => s,
            None => {
                return None;
            },
        };
        let orbital_period = match get_string_field(doc, "orbital_period") {
            Some(s) => s,
            None => {
                return None;
            },
        };
        let diameter = match get_string_field(doc, "diameter") {
            Some(s) => s,
            None => {
                return None;
            },
        };
        let climate = match get_string_field(doc, "climate") {
            Some(s) => s,
            None => {
                return None;
            },
        };
        let gravity = match get_string_field(doc, "gravity") {
            Some(s) => s,
            None => {
                return None;
            },
        };
        let terrain = match get_string_field(doc, "terrain") {
            Some(s) => s,
            None => {
                return None;
            },
        };
        let surface_water = match get_string_field(doc, "surface_water") {
            Some(s) => s,
            None => {
                return None;
            },
        };
        let population = match get_string_field(doc, "population") {
            Some(s) => s,
            None => {
                return None;
            },
        };
        let residents = match get_string_array_field(doc, "residents") {
            Some(l) => l,
            None => {
                return None;
            },
        };
        let films = match get_string_array_field(doc, "films") {
            Some(l) => l,
            None => {
                return None;
            },
        };
        let created = match get_string_field(doc, "created") {
            Some(s) => s,
            None => {
                return None;
            },
        };
        let edited = match get_string_field(doc, "edited") {
            Some(s) => s,
            None => {
                return None;
            },
        };
        let url = match get_string_field(doc, "url") {
            Some(s) => s,
            None => {
                return None;
            },
        };
        Some(
            Planet {
                name,
                rotation_period,
                orbital_period,
                diameter,
                climate,
                gravity,
                terrain,
                surface_water,
                population,
                residents,
                films,
                created,
                edited,
                url,
            },
        )
    }
}

} // verus!
