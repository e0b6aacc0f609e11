//! The starship resource.  On the wire its speed rating travels under the all-caps key `MGLT`.

use vstd::prelude::*;
use vstd::string::StringExecFns;
use crate::json::{Json, str_field, str_arr_field, get_string_field, get_string_array_field};
use crate::models::{clone_strings};
use crate::store::Resource;

verus! {

/// The collection page envelope for starships.
pub struct Starships {
    pub count: u32,
    pub next: Option<String>,
    pub previous: Option<String>,
    pub results: Vec<Starship>,
}

/// A starship record, identified by its canonical `url`.
#[derive(Debug, Clone, PartialEq, Eq)]
pub struct Starship {
    pub name: String,
    pub model: String,
    pub manufacturer: String,
    pub cost_in_credits: String,
    pub length: String,
    pub max_atmosphering_speed: String,
    pub crew: String,
    pub passengers: String,
    pub cargo_capacity: String,
    pub consumables: String,
    pub hyperdrive_rating: String,
    pub mglt: String,
    pub starship_class: String,
    pub pilots: Vec<String>,
    pub films: Vec<String>,
    pub created: String,
    pub edited: String,
    pub url: String,
}

/// The mathematical view of a starship record.
pub struct StarshipV {
    pub name: Seq<char>,
    pub model: Seq<char>,
    pub manufacturer: Seq<char>,
    pub cost_in_credits: Seq<char>,
    pub length: Seq<char>,
    pub max_atmosphering_speed: Seq<char>,
    pub crew: Seq<char>,
    pub passengers: Seq<char>,
    pub cargo_capacity: Seq<char>,
    pub consumables: Seq<char>,
    pub hyperdrive_rating: Seq<char>,
    pub mglt: Seq<char>,
    pub starship_class: Seq<char>,
    pub pilots: Seq<Seq<char>>,
    pub films: Seq<Seq<char>>,
    pub created: Seq<char>,
    pub edited: Seq<char>,
    pub url: Seq<char>,
}

impl View for Starship {
    type V = StarshipV;

    open spec fn view(&self) -> StarshipV {
        StarshipV {
            name: self.name@,
            model: self.model@,
            manufacturer: self.manufacturer@,
            cost_in_credits: self.cost_in_credits@,
            length: self.length@,
            max_atmosphering_speed: self.max_atmosphering_speed@,
            crew: self.crew@,
            passengers: self.passengers@,
            cargo_capacity: self.cargo_capacity@,
            consumables: self.consumables@,
            hyperdrive_rating: self.hyperdrive_rating@,
            mglt: self.mglt@,
            starship_class: self.starship_class@,
            pilots: self.pilots.deep_view(),
            films: self.films.deep_view(),
            created: self.created@,
            edited: self.edited@,
            url: self.url@,
        }
    }
}

impl Starship {
    /// Whether a JSON document has the starship record shape.
    pub open spec fn spec_json_ok(j: Json) -> bool {
        &&& str_field(j, "name"@) is Some
        &&& str_field(j, "model"@) is Some
        &&& str_field(j, "manufacturer"@) is Some
        &&& str_field(j, "cost_in_credits"@) is Some
        &&& str_field(j, "length"@) is Some
        &&& str_field(j, "max_atmosphering_speed"@) is Some
        &&& str_field(j, "crew"@) is Some
        &&& str_field(j, "passengers"@) is Some
        &&& str_field(j, "cargo_capacity"@) is Some
        &&& str_field(j, "consumables"@) is Some
        &&& str_field(j, "hyperdrive_rating"@) is Some
        &&& str_field(j, "MGLT"@) is Some
        &&& str_field(j, "starship_class"@) is Some
        &&& str_arr_field(j, "pilots"@) is Some
        &&& str_arr_field(j, "films"@) is Some
        &&& str_field(j, "created"@) is Some
        &&& str_field(j, "edited"@) is Some
        &&& str_field(j, "url"@) is Some
    }

    /// Whether `v` is the starship decoded from document `j`.
    pub open spec fn spec_json_matches(v: StarshipV, j: Json) -> bool {
        &&& str_field(j, "name"@) == Some(v.name)
        &&& str_field(j, "model"@) == Some(v.model)
        &&& str_field(j, "manufacturer"@) == Some(v.manufacturer)
        &&& str_field(j, "cost_in_credits"@) == Some(v.cost_in_credits)
        &&& str_field(j, "length"@) == Some(v.length)
        &&& str_field(j, "max_atmosphering_speed"@) == Some(v.max_atmosphering_speed)
        &&& str_field(j, "crew"@) == Some(v.crew)
        &&& str_field(j, "passengers"@) == Some(v.passengers)
        &&& str_field(j, "cargo_capacity"@) == Some(v.cargo_capacity)
        &&& str_field(j, "consumables"@) == Some(v.consumables)
        &&& str_field(j, "hyperdrive_rating"@) == Some(v.hyperdrive_rating)
        &&& str_field(j, "MGLT"@) == Some(v.mglt)
        &&& str_field(j, "starship_class"@) == Some(v.starship_class)
        &&& str_arr_field(j, "pilots"@) == Some(v.pilots)
        &&& str_arr_field(j, "films"@) == Some(v.films)
        &&& str_field(j, "created"@) == Some(v.created)
        &&& str_field(j, "edited"@) == Some(v.edited)
        &&& str_field(j, "url"@) == Some(v.url)
    }

    /// Renders the record as a multi-line card.
    pub fn description(&self) -> (r: String)
        ensures
            r@ == "\n---------------------\nName:                   "@ + self.name@
                + "\nModel:                  "@ + self.model@ + "\nManufacturer:           "@
                + self.manufacturer@ + "\nCost in Credits:        "@ + self.cost_in_credits@
                + "\nLength:                 "@ + self.length@ + "\nMax Atmosphering Speed: "@
                + self.max_atmosphering_speed@ + "\nCrew:                   "@ + self.crew@
                + "\nPassengers:             "@ + self.passengers@
                + "\nCargo Capacity:         "@ + self.cargo_capacity@
                + "\nConsumables:            "@ + self.consumables@
                + "\nHyperdrive Rating:      "@ + self.hyperdrive_rating@
                + "\nMGLT:                   "@ + self.mglt@ + "\nStarship Class:         "@
                + self.starship_class@ + "\n---------------------\n"@,
    {
        let mut r = String::from_str("\n---------------------\nName:                   ");
        r.append(self.name.as_str());
        r.append("\nModel:                  ");
        r.append(self.model.as_str());
        r.append("\nManufacturer:           ");
        r.append(self.manufacturer.as_str());
        r.append("\nCost in Credits:        ");
        r.append(self.cost_in_credits.as_str());
        r.append("\nLength:                 ");
        r.append(self.length.as_str());
        r.append("\nMax Atmosphering Speed: ");
        r.append(self.max_atmosphering_speed.as_str());
        r.append("\nCrew:                   ");
        r.append(self.crew.as_str());
        r.append("\nPassengers:             ");
        r.append(self.passengers.as_str());
        r.append("\nCargo Capacity:         ");
        r.append(self.cargo_capacity.as_str());
        r.append("\nConsumables:            ");
        r.append(self.consumables.as_str());
        r.append("\nHyperdrive Rating:      ");
        r.append(self.hyperdrive_rating.as_str());
        r.append("\nMGLT:                   ");
        r.append(self.mglt.as_str());
        r.append("\nStarship Class:         ");
        r.append(self.starship_class.as_str());
        r.append("\n---------------------\n");
        r
    }
}

impl Resource for Starship {
    open spec fn rkey(v: StarshipV) -> Seq<char> {
        v.url
    }

    open spec fn json_ok(j: Json) -> bool {
        Starship::spec_json_ok(j)
    }

    open spec fn json_matches(v: StarshipV, j: Json) -> bool {
        Starship::spec_json_matches(v, j)
    }

    fn url_str(&self) -> (r: &str) {
        self.url.as_str()
    }

    fn duplicate(&self) -> (r: Self) {
        Starship {
            name: self.name.clone(),
            model: self.model.clone(),
            manufacturer: self.manufacturer.clone(),
            cost_in_credits: self.cost_in_credits.clone(),
            length: self.length.clone(),
            max_atmosphering_speed: self.max_atmosphering_speed.clone(),
            crew: self.crew.clone(),
            passengers: self.passengers.clone(),
            cargo_capacity: self.cargo_capacity.clone(),
            consumables: self.consumables.clone(),
            hyperdrive_rating: self.hyperdrive_rating.clone(),
            mglt: self.mglt.clone(),
            starship_class: self.starship_class.clone(),
            pilots: clone_strings(&self.pilots),
            films: clone_strings(&self.films),
            created: self.created.clone(),
            edited: self.edited.clone(),
            url: self.url.clone(),
        }
    }

    fn from_json(doc: &serde_json::Value) -> (r: Option<Self>) {
        let name = match get_string_field(doc, "name") {
            Some(x) => x,
            None => {
                return None;
            },
        };
        let model = match get_string_field(doc, "model") {
            Some(x) => x,
            None => {
                return None;
            },
        };
        let manufacturer = match get_string_field(doc, "manufacturer") {
            Some(x) => x,
            None => {
                return None;
            },
        };
        let cost_in_credits = match get_string_field(doc, "cost_in_credits") {
            Some(x) => x,
            None => {
                return None;
            },
        };
        let length = match get_string_field(doc, "length") {
            Some(x) => x,
            None => {
                return None;
            },
        };
        let max_atmosphering_speed = match get_string_field(doc, "max_atmosphering_speed") {
            Some(x) => x,
            None => {
                return None;
            },
        };
        let crew = match get_string_field(doc, "crew") {
            Some(x) => x,
            None => {
                return None;
            },
        };
        let passengers = match get_string_field(doc, "passengers") {
            Some(x) => x,
            None => {
                return None;
            },
        };
        let cargo_capacity = match get_string_field(doc, "cargo_capacity") {
            Some(x) => x,
            None => {
                return None;
            },
        };
        let consumables = match get_string_field(doc, "consumables") {
            Some(x) => x,
            None => {
                return None;
            },
        };
        let hyperdrive_rating = match get_string_field(doc, "hyperdrive_rating") {
            Some(x) => x,
            None => {
                return None;
            },
        };
        let mglt = match get_string_field(doc, "MGLT") {
            Some(x) => x,
            None => {
                return None;
            },
        };
        let starship_class = match get_string_field(doc, "starship_class") {
            Some(x) => x,
            None => {
                return None;
            },
        };
        let pilots = match get_string_array_field(doc, "pilots") {
            Some(x) => x,
            None => {
                return None;
            },
        };
        let films = match get_string_array_field(doc, "films") {
            Some(x) => x,
            None => {
                return None;
            },
        };
        let created = match get_string_field(doc, "created") {
            Some(x) => x,
            None => {
                return None;
            },
        };
        let edited = match get_string_field(doc, "edited") {
            Some(x) => x,
            None => {
                return None;
            },
        };
        let url = match get_string_field(doc, "url") {
            Some(x) => x,
            None => {
                return None;
            },
        };
        Some(
            Starship {
                name,
                model,
                manufacturer,
                cost_in_credits,
                length,
                max_atmosphering_speed,
                crew,
                passengers,
                cargo_capacity,
                consumables,
                hyperdrive_rating,
                mglt,
                starship_class,
                pilots,
                films,
                created,
                edited,
                url,
            },
        )
    }
}

} // verus!
